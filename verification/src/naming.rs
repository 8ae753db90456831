//! Names and paths derived from issues and settings: worktree templates,
//! branch names, project keys, herdr agent names, shell command lines and
//! home-relative paths.

use vstd::prelude::*;
use crate::branch::{sanitize_branch_name, sanitized, slug, slugify, valid_branch_name};
use crate::issue::Issue;
use crate::text::{
    append, chars_of, decimal, decimal_string, is_ascii_alnum, is_ascii_alphanumeric,
    is_whitespace, is_ws, join_seqs, last_index_of, lemma_last_index_of, owned, push_str,
    push_string, replace_all, replace_str, rfind_char, slice_vec, starts_with, starts_with_vec,
    string_of, trim_vec, trim_ws,
};

verus! {

/// Longest `{slug}` / `{type}` substitution in worktree templates.
pub const SLUG_MAX: usize = 40;

/// `template` with {key}, {type} and {slug} filled from `issue`.
pub open spec fn issue_filled(template: Seq<char>, issue: Issue) -> Seq<char> {
    let t = replace_all(template, "{key}"@, issue.key@);
    let t = replace_all(t, "{type}"@, slug(issue.issue_type@, 40));
    replace_all(t, "{slug}"@, slug(issue.summary@, 40))
}

pub fn fill_issue_placeholders(template: &str, issue: &Issue) -> (r: String)
    ensures
        r@ == issue_filled(template@, *issue),
{
    proof {
        reveal_strlit("{key}");
        reveal_strlit("{type}");
        reveal_strlit("{slug}");
    }
    let ty = slugify(issue.issue_type.as_str(), SLUG_MAX);
    let sl = slugify(issue.summary.as_str(), SLUG_MAX);
    let t = replace_str(template, "{key}", issue.key.as_str());
    let t = replace_str(t.as_str(), "{type}", ty.as_str());
    replace_str(t.as_str(), "{slug}", sl.as_str())
}

/// Git-branch name for an issue from a `[worktree].branch` template
/// ({key} {type} {slug}): empty or a name `git check-ref-format --branch`
/// accepts.
pub fn render_branch_name(template: &str, issue: &Issue) -> (r: String)
    ensures
        r@ == sanitized(issue_filled(template@, *issue)),
        r@.len() == 0 || valid_branch_name(r@),
{
    let filled = fill_issue_placeholders(template, issue);
    sanitize_branch_name(filled.as_str())
}

/// Fill a worktree path/label template: {key} {type} {slug} {branch}.
pub fn fill_worktree_template(template: &str, issue: &Issue, branch: &str) -> (r: String)
    ensures
        r@ == replace_all(issue_filled(template@, *issue), "{branch}"@, branch@),
{
    proof {
        reveal_strlit("{branch}");
    }
    let filled = fill_issue_placeholders(template, issue);
    replace_str(filled.as_str(), "{branch}", branch)
}

/// Jira project key of an issue key: everything before the last '-'
/// ("PROJ-1666" -> "PROJ"); the whole key when it has no '-'.
pub open spec fn project_of(key: Seq<char>) -> Seq<char> {
    if last_index_of(key, '-') >= 0 {
        key.take(last_index_of(key, '-'))
    } else {
        key
    }
}

pub fn project_key(issue_key: &str) -> (r: String)
    ensures
        r@ == project_of(issue_key@),
{
    let v = chars_of(issue_key);
    proof {
        lemma_last_index_of(v@, '-');
    }
    match rfind_char(&v, '-') {
        Some(i) => {
            let p = slice_vec(&v, 0, i);
            assert(p@ =~= v@.take(i as int));
            string_of(&p)
        },
        None => string_of(&v),
    }
}

/// What `Path::new(path).file_name()` returns, as text.
pub uninterp spec fn path_file_name(path: Seq<char>) -> Option<Seq<char>>;

/// `std::path::Path::file_name`: the final component of the path, if there is
/// one (none when the path ends in `..` or is a root). Its result is named,
/// not stated.
#[verifier::external_body]
fn file_name(path: &str) -> (r: Option<String>)
    ensures
        match r {
            Some(n) => path_file_name(path@) == Some(n@),
            None => path_file_name(path@) is None,
        },
{
    std::path::Path::new(path).file_name().map(|n| n.to_string_lossy().into_owned())
}

/// The display name for `path` given its final component: that component, or
/// the whole path when there is none.
pub fn dir_name_from(path: &str, last: Option<String>) -> (r: String)
    ensures
        r@ == match last {
            Some(n) => n@,
            None => path@,
        },
{
    match last {
        Some(n) => n,
        None => owned(path),
    }
}

/// Last path component, for display ("/x/backend" -> "backend").
pub fn dir_name(path: &str) -> (r: String)
    ensures
        r@ == match path_file_name(path@) {
            Some(n) => n,
            None => path@,
        },
{
    let last = file_name(path);
    dir_name_from(path, last)
}

/// `c` may stay in a herdr agent name.
pub open spec fn name_char(c: char) -> bool {
    is_ascii_alnum(c) || c == '-'
}

pub open spec fn name_safe(s: Seq<char>) -> Seq<char> {
    s.map_values(|c: char| if name_char(c) { c } else { '-' })
}

fn name_safe_vec(s: &str) -> (r: Vec<char>)
    ensures
        r@ == name_safe(s@),
{
    let v = chars_of(s);
    let mut out: Vec<char> = Vec::new();
    let mut i: usize = 0;
    while i < v.len()
        invariant
            v@ == s@,
            i <= v.len(),
            out@ == name_safe(s@).take(i as int),
        decreases v.len() - i,
    {
        if is_ascii_alphanumeric(v[i]) || v[i] == '-' {
            out.push(v[i]);
        } else {
            out.push('-');
        }
        i += 1;
        assert(out@ =~= name_safe(s@).take(i as int));
    }
    assert(name_safe(s@).take(v.len() as int) =~= name_safe(s@));
    out
}

/// Unique herdr agent name: issue key + agent label + a suffix from the clock
/// (`epoch_secs`, seconds since the Unix epoch) so a second delegate of the
/// same issue does not collide. Characters other than ASCII alphanumerics
/// and '-' become '-'.
pub fn unique_agent_name(issue_key: &str, agent_label: &str, epoch_secs: u64) -> (r: String)
    ensures
        r@ == name_safe(issue_key@) + "-"@ + name_safe(agent_label@) + "-"@ + decimal(
            (epoch_secs % 10_000) as nat,
        ),
{
    let mut out = name_safe_vec(issue_key);
    push_str(&mut out, "-");
    let label = name_safe_vec(agent_label);
    append(&mut out, &label);
    push_str(&mut out, "-");
    let digits = decimal_string(epoch_secs % 10_000);
    append(&mut out, &digits);
    string_of(&out)
}

/// Characters that make an argument need single quotes.
pub open spec fn shell_special(c: char) -> bool {
    is_ws(c) || c == '"' || c == '\'' || c == '\\' || c == '$' || c == '`' || c == '!' || c
        == '&' || c == '|' || c == ';' || c == '<' || c == '>' || c == '(' || c == ')' || c
        == '{' || c == '}' || c == '[' || c == ']'
}

/// One argument as the shell reads it back: `''` when empty, single-quoted
/// (with `'` written `'\''`) when it holds a special character, else as is.
pub open spec fn quote_arg(a: Seq<char>) -> Seq<char> {
    if a.len() == 0 {
        "''"@
    } else if exists|i: int| 0 <= i < a.len() && shell_special(#[trigger] a[i]) {
        "'"@ + replace_all(a, "'"@, "'\\''"@) + "'"@
    } else {
        a
    }
}

fn is_shell_special(c: char) -> (b: bool)
    ensures
        b == shell_special(c),
{
    is_whitespace(c) || c == '"' || c == '\'' || c == '\\' || c == '$' || c == '`' || c == '!'
        || c == '&' || c == '|' || c == ';' || c == '<' || c == '>' || c == '(' || c == ')' || c
        == '{' || c == '}' || c == '[' || c == ']'
}

fn quote_one(a: &String) -> (r: Vec<char>)
    ensures
        r@ == quote_arg(a@),
{
    proof {
        reveal_strlit("'");
    }
    let v = chars_of(a.as_str());
    if v.len() == 0 {
        return chars_of("''");
    }
    let mut i: usize = 0;
    while i < v.len()
        invariant
            v@ == a@,
            i <= v.len(),
            forall|k: int| 0 <= k < i ==> !shell_special(#[trigger] v@[k]),
        decreases v.len() - i,
    {
        if is_shell_special(v[i]) {
            proof {
                reveal_strlit("'");
            }
            let mut out = chars_of("'");
            let q = replace_str(a.as_str(), "'", "'\\''");
            push_string(&mut out, &q);
            push_str(&mut out, "'");
            return out;
        }
        i += 1;
    }
    v
}

/// Shell-quote argv into a single command line for `pane run`.
pub fn shell_join(argv: &Vec<String>) -> (r: String)
    ensures
        r@ == join_seqs(argv@.map_values(|a: String| quote_arg(a@)), " "@),
{
    let ghost qs = argv@.map_values(|a: String| quote_arg(a@));
    let sep = chars_of(" ");
    let mut out: Vec<char> = Vec::new();
    let mut i: usize = 0;
    while i < argv.len()
        invariant
            i <= argv.len(),
            sep@ == " "@,
            qs == argv@.map_values(|a: String| quote_arg(a@)),
            out@ == join_seqs(qs.take(i as int), " "@),
        decreases argv.len() - i,
    {
        let q = quote_one(&argv[i]);
        if i > 0 {
            append(&mut out, &sep);
        }
        append(&mut out, &q);
        assert(qs.take(i + 1).drop_last() =~= qs.take(i as int));
        i += 1;
    }
    assert(qs.take(argv.len() as int) =~= qs);
    string_of(&out)
}

/// Expand `~` / `$HOME` at the start of a trimmed path (`home` is `$HOME`,
/// `None` when unset).
pub open spec fn expanded(path: Seq<char>, home: Option<Seq<char>>) -> Seq<char> {
    let p = trim_ws(path);
    if p == "~"@ {
        match home {
            Some(h) => h,
            None => p,
        }
    } else if starts_with(p, "~/"@) && home is Some && home->0.len() > 0 {
        home->0 + "/"@ + p.skip(2)
    } else if starts_with(p, "$HOME/"@) && home is Some && home->0.len() > 0 {
        home->0 + "/"@ + p.skip(6)
    } else {
        p
    }
}

pub open spec fn opt_view(o: Option<String>) -> Option<Seq<char>> {
    match o {
        Some(s) => Some(s@),
        None => None,
    }
}

pub fn expand_path(path: &str, home: &Option<String>) -> (r: String)
    ensures
        r@ == expanded(path@, opt_view(*home)),
{
    proof {
        reveal_strlit("~");
        reveal_strlit("~/");
        reveal_strlit("$HOME/");
    }
    let p = trim_vec(&chars_of(path));
    let tilde = chars_of("~");
    if crate::branch::vec_equal(&p, &tilde) {
        return match home {
            Some(h) => h.clone(),
            None => string_of(&p),
        };
    }
    let h: Vec<char> = match home {
        Some(h) => chars_of(h.as_str()),
        None => Vec::new(),
    };
    if starts_with_vec(&p, &chars_of("~/")) && h.len() > 0 {
        let mut out = h;
        push_str(&mut out, "/");
        let rest = slice_vec(&p, 2, p.len());
        assert(rest@ =~= p@.skip(2));
        append(&mut out, &rest);
        return string_of(&out);
    }
    if starts_with_vec(&p, &chars_of("$HOME/")) && h.len() > 0 {
        let mut out = h;
        push_str(&mut out, "/");
        let rest = slice_vec(&p, 6, p.len());
        assert(rest@ =~= p@.skip(6));
        append(&mut out, &rest);
        return string_of(&out);
    }
    string_of(&p)
}

/// `p` with a leading `home` shown as `~` (`home` empty when unset).
pub open spec fn home_short(p: Seq<char>, home: Seq<char>) -> Seq<char> {
    if home.len() > 0 && starts_with(p, home) {
        "~"@ + p.skip(home.len() as int)
    } else {
        p
    }
}

pub fn short_home(p: &str, home: &str) -> (r: String)
    ensures
        r@ == home_short(p@, home@),
{
    let pv = chars_of(p);
    let hv = chars_of(home);
    if hv.len() > 0 && starts_with_vec(&pv, &hv) {
        let mut out = chars_of("~");
        let rest = slice_vec(&pv, hv.len(), pv.len());
        assert(rest@ =~= p@.skip(home@.len() as int));
        append(&mut out, &rest);
        string_of(&out)
    } else {
        string_of(&pv)
    }
}

/// At most `max` characters: longer text keeps `max - 1` of them and gets '…'.
pub open spec fn truncated(s: Seq<char>, max: nat) -> Seq<char> {
    if s.len() <= max {
        s
    } else {
        s.take(if max > 0 { max - 1 } else { 0 }) + "…"@
    }
}

pub fn truncate_label(s: &str, max: usize) -> (r: String)
    ensures
        r@ == truncated(s@, max as nat),
{
    let v = chars_of(s);
    if v.len() <= max {
        return string_of(&v);
    }
    let take = if max > 0 {
        max - 1
    } else {
        0
    };
    let mut out = slice_vec(&v, 0, take);
    assert(out@ =~= v@.take(take as int));
    push_str(&mut out, "…");
    string_of(&out)
}

/// "1. " index prefix shown in pickers; rows past 9 have no hotkey.
pub fn row_number_label(i: usize) -> (r: String)
    ensures
        i < 9 ==> r@ == decimal((i + 1) as nat) + ". "@,
        i >= 9 ==> r@ == "   "@,
{
    if i < 9 {
        let mut out = decimal_string((i + 1) as u64);
        push_str(&mut out, ". ");
        string_of(&out)
    } else {
        owned("   ")
    }
}

} // verus!

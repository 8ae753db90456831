//! Jira issues as the pane shows them, and the delegate prompt built from one.

use vstd::prelude::*;
use crate::config::Config;
use crate::text::{
    chars_of, eq_ignore_ascii_case, eq_ignore_case, join_seqs, join_strings, push_str,
    replace_all, replace_str, slice_vec, string_of, trim_vec, trim_ws, views,
};

verus! {

#[derive(Debug, Clone)]
pub struct Issue {
    pub key: String,
    pub summary: String,
    pub status: String,
    pub status_category: String,
    pub issue_type: String,
    pub priority: String,
    pub assignee: String,
    pub reporter: String,
    pub updated: String,
    pub labels: Vec<String>,
    pub description: String,
    pub url: String,
}

/// A workflow transition of an issue.
#[derive(Debug, Clone)]
pub struct Transition {
    pub id: String,
    pub name: String,
    pub to_status: String,
}

/// An issue comment.
#[derive(Debug, Clone)]
pub struct Comment {
    pub author: String,
    pub created: String,
    pub body: String,
}

/// The issue type is "epic", in any ASCII case.
pub open spec fn epic(issue: Issue) -> bool {
    eq_ignore_ascii_case(issue.issue_type@, "epic"@)
}

pub fn is_epic(issue: &Issue) -> (b: bool)
    ensures
        b == epic(*issue),
{
    eq_ignore_case(issue.issue_type.as_str(), "epic")
}

/// The description as the prompt shows it: a placeholder when blank, cut to
/// `max` characters (0 = no limit) with a marker when longer.
pub open spec fn prompt_description(desc: Seq<char>, max: nat) -> Seq<char> {
    let d = if trim_ws(desc).len() == 0 {
        "(no description)"@
    } else {
        desc
    };
    if max > 0 && d.len() > max {
        d.take(max as int) + "\n[… description truncated]"@
    } else {
        d
    }
}

/// `template` with every placeholder replaced, in this order, then trimmed.
pub open spec fn prompt_text(template: Seq<char>, issue: Issue, max: nat) -> Seq<char> {
    let t = replace_all(template, "{key}"@, issue.key@);
    let t = replace_all(t, "{summary}"@, issue.summary@);
    let t = replace_all(t, "{description}"@, prompt_description(issue.description@, max));
    let t = replace_all(t, "{url}"@, issue.url@);
    let t = replace_all(t, "{status}"@, issue.status@);
    let t = replace_all(t, "{assignee}"@, issue.assignee@);
    let t = replace_all(t, "{reporter}"@, issue.reporter@);
    let t = replace_all(t, "{priority}"@, issue.priority@);
    let t = replace_all(t, "{type}"@, issue.issue_type@);
    let t = replace_all(t, "{labels}"@, join_seqs(views(issue.labels@), ", "@));
    trim_ws(t)
}

/// Law: a non-blank description is shown whole when there is no limit or it
/// fits, and otherwise cut to its first `max` characters followed by the
/// truncation marker; a blank one is shown as "(no description)" when there
/// is no limit.
pub proof fn lemma_description_shown(desc: Seq<char>, max: nat)
    ensures
        trim_ws(desc).len() > 0 && (max == 0 || desc.len() <= max) ==> prompt_description(desc, max)
            == desc,
        trim_ws(desc).len() > 0 && max > 0 && desc.len() > max ==> prompt_description(desc, max)
            == desc.take(max as int) + "\n[… description truncated]"@,
        trim_ws(desc).len() == 0 && max == 0 ==> prompt_description(desc, max) == "(no description)"@,
{
}

/// No '{' in `s`: no placeholder can start in it.
pub open spec fn brace_free(s: Seq<char>) -> bool {
    forall|i: int| 0 <= i < s.len() ==> s[i] != '{'
}

/// Replacing a pattern that starts with '{' leaves a brace-free text alone.
proof fn lemma_replace_brace_free(s: Seq<char>, pat: Seq<char>, rep: Seq<char>)
    requires
        brace_free(s),
        pat.len() > 0,
        pat[0] == '{',
    ensures
        replace_all(s, pat, rep) == s,
    decreases s.len(),
{
    if s.len() >= pat.len() {
        assert(s.subrange(0, pat.len() as int)[0] == s[0]);
        let t = s.skip(1);
        assert forall|i: int| 0 <= i < t.len() implies t[i] != '{' by {
            assert(t[i] == s[i + 1]);
        }
        lemma_replace_brace_free(t, pat, rep);
        assert(seq![s[0]] + t =~= s);
    }
}

/// Replacing a text by itself gives the replacement.
proof fn lemma_replace_whole(pat: Seq<char>, rep: Seq<char>)
    requires
        pat.len() > 0,
    ensures
        replace_all(pat, pat, rep) == rep,
{
    assert(pat.subrange(0, pat.len() as int) =~= pat);
    assert(pat.skip(pat.len() as int).len() == 0);
    assert(rep + replace_all(pat.skip(pat.len() as int), pat, rep) =~= rep);
}

/// A placeholder (a '{' followed by brace-free text) is left alone by the
/// replacement of another placeholder that differs from it in its second or
/// third character.
proof fn lemma_replace_other(s: Seq<char>, q: Seq<char>, rep: Seq<char>)
    requires
        s.len() > 2,
        q.len() > 2,
        s[0] == '{',
        q[0] == '{',
        brace_free(s.skip(1)),
        s[1] != q[1] || s[2] != q[2],
    ensures
        replace_all(s, q, rep) == s,
{
    if s.len() >= q.len() {
        let h = s.subrange(0, q.len() as int);
        assert(h[1] == s[1] && h[2] == s[2]);
        assert(h != q);
        lemma_replace_brace_free(s.skip(1), q, rep);
        assert(seq![s[0]] + s.skip(1) =~= s);
    }
}

proof fn lemma_join_brace_free(parts: Seq<Seq<char>>, sep: Seq<char>)
    requires
        brace_free(sep),
        forall|k: int| 0 <= k < parts.len() ==> brace_free(#[trigger] parts[k]),
    ensures
        brace_free(join_seqs(parts, sep)),
    decreases parts.len(),
{
    if parts.len() > 1 {
        let d = parts.drop_last();
        assert forall|k: int| 0 <= k < d.len() implies brace_free(#[trigger] d[k]) by {
            assert(d[k] == parts[k]);
        }
        lemma_join_brace_free(d, sep);
        let a = join_seqs(d, sep);
        let b = a + sep + parts.last();
        assert(brace_free(parts[parts.len() - 1]));
        assert forall|i: int| 0 <= i < b.len() implies b[i] != '{' by {
            if i < a.len() {
            } else if i < a.len() + sep.len() {
                assert(b[i] == sep[i - a.len()]);
            } else {
                assert(b[i] == parts.last()[i - a.len() - sep.len()]);
            }
        }
    } else if parts.len() == 1 {
        assert(brace_free(parts[0]));
    }
}

proof fn lemma_description_brace_free(desc: Seq<char>, max: nat)
    requires
        brace_free(desc),
    ensures
        brace_free(prompt_description(desc, max)),
{
    reveal_strlit("(no description)");
    reveal_strlit("\n[… description truncated]");
    let d = if trim_ws(desc).len() == 0 {
        "(no description)"@
    } else {
        desc
    };
    assert(brace_free(d));
    if max > 0 && d.len() > max {
        let t = d.take(max as int);
        let m = "\n[… description truncated]"@;
        assert(brace_free(m));
        assert forall|i: int| 0 <= i < (t + m).len() implies (t + m)[i] != '{' by {
            if i < t.len() {
                assert((t + m)[i] == d[i]);
            } else {
                assert((t + m)[i] == m[i - t.len()]);
            }
        }
    }
}

/// Law: each placeholder is filled from its own field. A template made of
/// one placeholder gives that field (as the prompt shows it: trimmed, the
/// description with its placeholder or cut, the labels joined by ", "),
/// for every issue whose fields hold no '{' (a '{' in a field could start a
/// placeholder that a later replacement fills).
pub proof fn lemma_placeholders_take_their_fields(issue: Issue, max: nat)
    requires
        brace_free(issue.key@),
        brace_free(issue.summary@),
        brace_free(issue.description@),
        brace_free(issue.url@),
        brace_free(issue.status@),
        brace_free(issue.assignee@),
        brace_free(issue.reporter@),
        brace_free(issue.priority@),
        brace_free(issue.issue_type@),
        forall|k: int| 0 <= k < issue.labels@.len() ==> brace_free(#[trigger] issue.labels@[k]@),
    ensures
        prompt_text("{key}"@, issue, max) == trim_ws(issue.key@),
        prompt_text("{summary}"@, issue, max) == trim_ws(issue.summary@),
        prompt_text("{description}"@, issue, max) == trim_ws(
            prompt_description(issue.description@, max),
        ),
        prompt_text("{url}"@, issue, max) == trim_ws(issue.url@),
        prompt_text("{status}"@, issue, max) == trim_ws(issue.status@),
        prompt_text("{assignee}"@, issue, max) == trim_ws(issue.assignee@),
        prompt_text("{reporter}"@, issue, max) == trim_ws(issue.reporter@),
        prompt_text("{priority}"@, issue, max) == trim_ws(issue.priority@),
        prompt_text("{type}"@, issue, max) == trim_ws(issue.issue_type@),
        prompt_text("{labels}"@, issue, max) == trim_ws(join_seqs(views(issue.labels@), ", "@)),
{
    reveal_strlit("{key}");
    reveal_strlit("{summary}");
    reveal_strlit("{description}");
    reveal_strlit("{url}");
    reveal_strlit("{status}");
    reveal_strlit("{assignee}");
    reveal_strlit("{reporter}");
    reveal_strlit("{priority}");
    reveal_strlit("{type}");
    reveal_strlit("{labels}");
    reveal_strlit(", ");
    lemma_description_brace_free(issue.description@, max);
    let ls = views(issue.labels@);
    assert forall|k: int| 0 <= k < ls.len() implies brace_free(#[trigger] ls[k]) by {
        assert(ls[k] == issue.labels@[k]@);
    }
    assert(brace_free(", "@));
    lemma_join_brace_free(ls, ", "@);
    assert forall|s: Seq<char>, q: Seq<char>, r: Seq<char>|
        brace_free(s) && q.len() > 0 && q[0] == '{' implies #[trigger] replace_all(s, q, r) == s by {
        lemma_replace_brace_free(s, q, r);
    }
    assert forall|s: Seq<char>, q: Seq<char>, r: Seq<char>|
        s.len() > 2 && q.len() > 2 && s[0] == '{' && q[0] == '{' && brace_free(s.skip(1)) && (s[1]
            != q[1] || s[2] != q[2]) implies #[trigger] replace_all(s, q, r) == s by {
        lemma_replace_other(s, q, r);
    }
    assert forall|s: Seq<char>, r: Seq<char>| s.len() > 0 implies #[trigger] replace_all(s, s, r)
        == r by {
        lemma_replace_whole(s, r);
    }
    assert(brace_free("{key}"@.skip(1)));
    assert(brace_free("{summary}"@.skip(1)));
    assert(brace_free("{description}"@.skip(1)));
    assert(brace_free("{url}"@.skip(1)));
    assert(brace_free("{status}"@.skip(1)));
    assert(brace_free("{assignee}"@.skip(1)));
    assert(brace_free("{reporter}"@.skip(1)));
    assert(brace_free("{priority}"@.skip(1)));
    assert(brace_free("{type}"@.skip(1)));
    assert(brace_free("{labels}"@.skip(1)));
}

fn description_text(desc: &String, max: usize) -> (r: String)
    ensures
        r@ == prompt_description(desc@, max as nat),
{
    let raw = chars_of(desc.as_str());
    let d = if trim_vec(&raw).len() == 0 {
        chars_of("(no description)")
    } else {
        raw
    };
    if max > 0 && d.len() > max {
        let mut cut = slice_vec(&d, 0, max);
        assert(cut@ =~= d@.take(max as int));
        push_str(&mut cut, "\n[… description truncated]");
        string_of(&cut)
    } else {
        string_of(&d)
    }
}

/// Fill the delegate prompt template with issue fields.
pub fn build_prompt(cfg: &Config, issue: &Issue) -> (r: String)
    ensures
        r@ == prompt_text(
            cfg.delegate.prompt@,
            *issue,
            cfg.delegate.max_description_chars as nat,
        ),
{
    proof {
        reveal_strlit("{key}");
        reveal_strlit("{summary}");
        reveal_strlit("{description}");
        reveal_strlit("{url}");
        reveal_strlit("{status}");
        reveal_strlit("{assignee}");
        reveal_strlit("{reporter}");
        reveal_strlit("{priority}");
        reveal_strlit("{type}");
        reveal_strlit("{labels}");
    }
    let desc = description_text(&issue.description, cfg.delegate.max_description_chars);
    let labels = join_strings(&issue.labels, ", ");
    let t = replace_str(cfg.delegate.prompt.as_str(), "{key}", issue.key.as_str());
    let t = replace_str(t.as_str(), "{summary}", issue.summary.as_str());
    let t = replace_str(t.as_str(), "{description}", desc.as_str());
    let t = replace_str(t.as_str(), "{url}", issue.url.as_str());
    let t = replace_str(t.as_str(), "{status}", issue.status.as_str());
    let t = replace_str(t.as_str(), "{assignee}", issue.assignee.as_str());
    let t = replace_str(t.as_str(), "{reporter}", issue.reporter.as_str());
    let t = replace_str(t.as_str(), "{priority}", issue.priority.as_str());
    let t = replace_str(t.as_str(), "{type}", issue.issue_type.as_str());
    let t = replace_str(t.as_str(), "{labels}", labels.as_str());
    let v = trim_vec(&chars_of(t.as_str()));
    string_of(&v)
}

} // verus!

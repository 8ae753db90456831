//! Directories the browser offers or accepts: `~` expansion, the existence
//! check, the cwd candidates for a new agent and the worktree options.

use vstd::prelude::*;
use crate::config::Config;
use crate::herdr::{HerdrAgent, WorktreeOpts};
use crate::issue::Issue;
use crate::naming::{expand_path, expanded, fill_worktree_template, issue_filled, opt_view};
use crate::pane::AppEnv;
use crate::text::{
    chars_of, contains_seq, contains_vec, owned, push_str, push_string, replace_all, string_of,
    trim_vec, trim_ws, views,
};

verus! {

/// `std::path::Path::is_dir`: whether `path` names an existing directory
/// (following symlinks; false on any error). The answer depends on the file
/// system at the moment of the call, so nothing is stated of it.
#[verifier::external_body]
pub(crate) fn is_dir(path: &str) -> (r: bool) {
    std::path::Path::new(path).is_dir()
}

pub open spec fn not_a_directory(cwd: Seq<char>) -> Seq<char> {
    "not a directory: "@ + cwd
}

/// The verdict on an expanded, non-empty path given whether it is a
/// directory.
pub fn cwd_verdict(cwd: String, dir: bool) -> (r: Result<String, String>)
    ensures
        dir ==> r == Ok::<String, String>(cwd),
        !dir ==> r is Err && r->Err_0@ == not_a_directory(cwd@),
{
    if dir {
        Ok(cwd)
    } else {
        let mut m = chars_of("not a directory: ");
        push_string(&mut m, &cwd);
        Err(string_of(&m))
    }
}

/// Expand (`~`, `$HOME`) and check a directory: it must be non-empty and
/// exist. Whether it exists is the file system's answer.
pub fn resolve_cwd(cwd_raw: &str, home: &Option<String>) -> (r: Result<String, String>)
    ensures
        expanded(cwd_raw@, opt_view(*home)).len() == 0 ==> r is Err && r->Err_0@ == "path is empty"@,
        expanded(cwd_raw@, opt_view(*home)).len() > 0 ==> match r {
            Ok(c) => c@ == expanded(cwd_raw@, opt_view(*home)),
            Err(e) => e@ == not_a_directory(expanded(cwd_raw@, opt_view(*home))),
        },
{
    let cwd = expand_path(cwd_raw, home);
    if chars_of(cwd.as_str()).len() == 0 {
        return Err(owned("path is empty"));
    }
    let dir = is_dir(cwd.as_str());
    cwd_verdict(cwd, dir)
}

/// The cwds of running agents worth offering: non-empty, not a
/// `herdr-mirror` helper pane.
pub open spec fn agent_cwds(agents: Seq<HerdrAgent>) -> Seq<Seq<char>>
    decreases agents.len(),
{
    if agents.len() == 0 {
        Seq::empty()
    } else {
        let c = agents.last().cwd@;
        let rest = agent_cwds(agents.drop_last());
        if c.len() > 0 && !contains_seq(c, "herdr-mirror"@) {
            rest.push(c)
        } else {
            rest
        }
    }
}

/// The cwd candidates, in order: the configured default, the running
/// agents' cwds, the current directory, then `$HOME` and its usual work
/// directories.
pub open spec fn cwd_candidates(cfg: Config, agents: Seq<HerdrAgent>, env: AppEnv) -> Seq<
    Seq<char>,
> {
    let home_dirs = match env.home {
        Some(h) => seq![h@, h@ + "/Work"@, h@ + "/Projects"@, h@ + "/src"@],
        None => Seq::empty(),
    };
    (if trim_ws(cfg.delegate.default_cwd@).len() > 0 {
        seq![cfg.delegate.default_cwd@]
    } else {
        Seq::empty()
    }) + agent_cwds(agents) + (match env.current_dir {
        Some(d) => seq![d@],
        None => Seq::empty(),
    }) + home_dirs
}

/// The choices among expanded candidates `exps` (with `dirs[i]` whether
/// `exps[i]` is a directory): non-empty directories, each once, in order.
pub open spec fn choices_upto(exps: Seq<Seq<char>>, dirs: Seq<bool>, n: nat) -> Seq<Seq<char>>
    decreases n,
{
    if n == 0 {
        Seq::empty()
    } else {
        let prev = choices_upto(exps, dirs, (n - 1) as nat);
        let p = exps[n - 1];
        if p.len() > 0 && dirs[n - 1] && !prev.contains(p) {
            prev.push(p)
        } else {
            prev
        }
    }
}

pub open spec fn expansions(cands: Seq<Seq<char>>, home: Option<Seq<char>>) -> Seq<Seq<char>> {
    cands.map_values(|c: Seq<char>| expanded(c, home))
}

/// `out` are the cwd choices for some answers of the file system.
pub open spec fn cwd_choices_for(cfg: Config, agents: Seq<HerdrAgent>, env: AppEnv, out: Seq<Seq<char>>) -> bool {
    let exps = expansions(cwd_candidates(cfg, agents, env), opt_view(env.home));
    exists|dirs: Seq<bool>| dirs.len() == exps.len() && out == choices_upto(exps, dirs, exps.len())
}

fn contains_string(v: &Vec<String>, s: &String) -> (b: bool)
    ensures
        b == views(v@).contains(s@),
{
    let want = chars_of(s.as_str());
    let mut i: usize = 0;
    while i < v.len()
        invariant
            i <= v.len(),
            want@ == s@,
            forall|k: int| 0 <= k < i ==> v@[k]@ != s@,
        decreases v.len() - i,
    {
        if crate::branch::vec_equal(&chars_of(v[i].as_str()), &want) {
            assert(views(v@)[i as int] == s@);
            return true;
        }
        i += 1;
    }
    proof {
        if views(v@).contains(s@) {
            let k = choose|k: int| 0 <= k < views(v@).len() && views(v@)[k] == s@;
            assert(v@[k]@ == s@);
        }
    }
    false
}

/// The choices among expanded candidates, given the file system's answers.
pub fn cwd_choices_from(exps: &Vec<String>, dirs: &Vec<bool>) -> (r: Vec<String>)
    requires
        exps.len() == dirs.len(),
    ensures
        views(r@) == choices_upto(views(exps@), dirs@, exps@.len()),
{
    let mut out: Vec<String> = Vec::new();
    let mut i: usize = 0;
    while i < exps.len()
        invariant
            i <= exps.len(),
            exps.len() == dirs.len(),
            views(out@) == choices_upto(views(exps@), dirs@, i as nat),
        decreases exps.len() - i,
    {
        let p = &exps[i];
        if chars_of(p.as_str()).len() > 0 && dirs[i] && !contains_string(&out, p) {
            out.push(p.clone());
            assert(views(out@) =~= choices_upto(views(exps@), dirs@, i as nat).push(p@));
        }
        i += 1;
    }
    out
}

fn push_candidate(cands: &mut Vec<String>, s: String)
    ensures
        views(final(cands)@) == views(old(cands)@).push(s@),
{
    cands.push(s);
    assert(views(cands@) =~= views(old(cands)@).push(s@));
}

fn home_dir(h: &String, suffix: &str) -> (r: String)
    ensures
        r@ == h@ + suffix@,
{
    let mut m = chars_of(h.as_str());
    push_str(&mut m, suffix);
    string_of(&m)
}

/// The raw cwd candidates.
pub fn cwd_candidate_list(cfg: &Config, agents: &Vec<HerdrAgent>, env: &AppEnv) -> (r: Vec<String>)
    ensures
        views(r@) == cwd_candidates(*cfg, agents@, *env),
{
    let mut out: Vec<String> = Vec::new();
    if trim_vec(&chars_of(cfg.delegate.default_cwd.as_str())).len() > 0 {
        push_candidate(&mut out, cfg.delegate.default_cwd.clone());
    }
    let ghost head = views(out@);
    let mirror = chars_of("herdr-mirror");
    let mut i: usize = 0;
    while i < agents.len()
        invariant
            i <= agents.len(),
            mirror@ == "herdr-mirror"@,
            views(out@) == head + agent_cwds(agents@.take(i as int)),
        decreases agents.len() - i,
    {
        let c = chars_of(agents[i].cwd.as_str());
        assert(agents@.take(i + 1).drop_last() =~= agents@.take(i as int));
        if c.len() > 0 && !contains_vec(&c, &mirror) {
            push_candidate(&mut out, agents[i].cwd.clone());
            assert(views(out@) =~= head + agent_cwds(agents@.take(i + 1)));
        }
        i += 1;
    }
    assert(agents@.take(agents.len() as int) =~= agents@);
    let ghost mid = views(out@);
    match &env.current_dir {
        Some(d) => push_candidate(&mut out, d.clone()),
        None => {},
    }
    let ghost mid2 = views(out@);
    match &env.home {
        Some(h) => {
            push_candidate(&mut out, h.clone());
            push_candidate(&mut out, home_dir(h, "/Work"));
            push_candidate(&mut out, home_dir(h, "/Projects"));
            push_candidate(&mut out, home_dir(h, "/src"));
        },
        None => {},
    }
    assert(views(out@) =~= cwd_candidates(*cfg, agents@, *env));
    out
}

/// Build the cwd options for a new agent: the candidates, expanded, that
/// the file system reports as directories, each once.
pub fn collect_cwd_choices(cfg: &Config, agents: &Vec<HerdrAgent>, env: &AppEnv) -> (r: Vec<String>)
    ensures
        cwd_choices_for(*cfg, agents@, *env, views(r@)),
{
    let cands = cwd_candidate_list(cfg, agents, env);
    let ghost exps_spec = expansions(cwd_candidates(*cfg, agents@, *env), opt_view(env.home));
    let mut exps: Vec<String> = Vec::new();
    let mut dirs: Vec<bool> = Vec::new();
    let mut i: usize = 0;
    while i < cands.len()
        invariant
            i <= cands.len(),
            views(cands@) == cwd_candidates(*cfg, agents@, *env),
            exps_spec == expansions(cwd_candidates(*cfg, agents@, *env), opt_view(env.home)),
            exps@.len() == i,
            dirs@.len() == i,
            views(exps@) == exps_spec.take(i as int),
        decreases cands.len() - i,
    {
        let e = expand_path(cands[i].as_str(), &env.home);
        let d = if chars_of(e.as_str()).len() > 0 {
            is_dir(e.as_str())
        } else {
            false
        };
        exps.push(e);
        dirs.push(d);
        assert(views(exps@) =~= exps_spec.take(i + 1));
        i += 1;
    }
    assert(exps_spec.take(cands.len() as int) =~= exps_spec);
    let r = cwd_choices_from(&exps, &dirs);
    assert(views(exps@) == exps_spec);
    r
}

/// `herdr worktree` options for `issue` on `branch` from `[worktree]`.
pub open spec fn worktree_opts_of(cfg: Config, issue: Issue, branch: Seq<char>, home: Option<Seq<char>>) -> (
    Seq<char>,
    Seq<char>,
    Seq<char>,
    Seq<char>,
    bool,
) {
    let w = cfg.worktree;
    let path = if trim_ws(w.path@).len() == 0 {
        Seq::empty()
    } else {
        expanded(replace_all(issue_filled(trim_ws(w.path@), issue), "{branch}"@, branch), home)
    };
    (
        branch,
        trim_ws(w.base@),
        path,
        replace_all(issue_filled(trim_ws(w.label@), issue), "{branch}"@, branch),
        w.trust_repository,
    )
}

pub open spec fn opts_view(o: WorktreeOpts) -> (Seq<char>, Seq<char>, Seq<char>, Seq<char>, bool) {
    (o.branch@, o.base@, o.path@, o.label@, o.trust_repository)
}

pub fn worktree_opts(cfg: &Config, issue: &Issue, branch: &str, home: &Option<String>) -> (r: WorktreeOpts)
    ensures
        opts_view(r) == worktree_opts_of(*cfg, *issue, branch@, opt_view(*home)),
{
    let w = &cfg.worktree;
    let path_t = string_of(&trim_vec(&chars_of(w.path.as_str())));
    let path = if chars_of(path_t.as_str()).len() == 0 {
        String::new()
    } else {
        let filled = fill_worktree_template(path_t.as_str(), issue, branch);
        expand_path(filled.as_str(), home)
    };
    let label_t = string_of(&trim_vec(&chars_of(w.label.as_str())));
    WorktreeOpts {
        branch: owned(branch),
        base: string_of(&trim_vec(&chars_of(w.base.as_str()))),
        path,
        label: fill_worktree_template(label_t.as_str(), issue, branch),
        trust_repository: w.trust_repository,
    }
}

} // verus!

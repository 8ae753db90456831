//! The multi-step herdr operations as state machines. Each machine says what
//! to do next (run a CLI command, sleep, or finish with a result); the caller
//! does it and hands back what happened, with a reading of a monotonic clock
//! in nanoseconds.

use vstd::prelude::*;
use crate::herdr::{
    AgentView, CliError, CreatedTab, HerdrAgent, agent_view, best_pane, items_at, non_empty,
    non_empty_str, opt_flag, pane_in_tab_of, root_pane_in, tab_id_in, ProjectEntry, WorkspaceView,
    entry_project_view, fold_projects, project_entry_view, repo_of_listing, sort_entries,
    workspace_view, workspaces_in, HerdrWorkspace, OpenedView, OpenedWorktree,
    RepoProject, StartAgentOpts, TabAnswer, WorktreeOpts, agents_from, arg, focus_flag, json_null,
    opened_of, opened_view, pane_list_args, pane_list_command, pane_in_tab, parse_opened_worktree,
    parse_worktrees, projects_from_workspaces, repo_from_worktree_list, split_parent,
    tab_answer, tab_create_args, tab_create_command, workspaces_from, worktree_args,
    worktree_command,
};
use crate::json::{Json, as_spec, as_str, at, field, field_of, opt_view, str_of, text, text_of};
use crate::naming::{quote_arg, shell_join};
use crate::text::{
    append, chars_of, decimal, decimal_string, join_seqs, lower_seq, lower_vec, owned, push_str, push_string, string_of,
    trim_vec, trim_ws, views,
};

verus! {

/// What a machine asks for next.
pub enum Step<T> {
    /// Run `herdr` with these arguments.
    Run(Vec<String>),
    /// Sleep this many milliseconds.
    SleepMs(u64),
    /// Sleep this many nanoseconds.
    SleepNs(u64),
    /// Finished.
    Done(Result<T, String>),
}

/// What happened to the last step.
pub enum Event {
    /// The command ran; its answer (see `herdr::read_output`).
    Ran(Result<Json, CliError>),
    /// The sleep is over.
    Slept,
}

pub open spec fn args_of<T>(s: Step<T>) -> Seq<Seq<char>> {
    match s {
        Step::Run(a) => views(a@),
        _ => Seq::empty(),
    }
}

pub open spec fn err_of<T>(s: Step<T>) -> Seq<char> {
    match s {
        Step::Done(Err(e)) => e@,
        _ => Seq::empty(),
    }
}

pub open spec fn is_failure<T>(s: Step<T>) -> bool {
    s matches Step::Done(Err(_))
}

pub open spec fn is_run<T>(s: Step<T>) -> bool {
    s is Run
}

pub open spec fn ran_ok(ev: Event) -> bool {
    ev matches Event::Ran(Ok(_))
}

pub open spec fn ran_err(ev: Event) -> bool {
    ev matches Event::Ran(Err(_))
}

pub open spec fn err_code(ev: Event) -> Option<Seq<char>> {
    match ev {
        Event::Ran(Err(e)) => opt_view(e.code),
        _ => None,
    }
}

pub open spec fn err_message(ev: Event) -> Seq<char> {
    match ev {
        Event::Ran(Err(e)) => e.message@,
        _ => Seq::empty(),
    }
}

pub open spec fn answer(ev: Event) -> Json {
    match ev {
        Event::Ran(Ok(j)) => j,
        _ => arbitrary(),
    }
}

/// The message a machine finishes with when it is handed an event it did not
/// ask for.
pub open spec fn out_of_order() -> Seq<char> {
    "herdr: unexpected event"@
}

fn unexpected<T>() -> (s: Step<T>)
    ensures
        is_failure(s),
        err_of(s) == out_of_order(),
{
    Step::Done(Err(owned("herdr: unexpected event")))
}

fn is_code(e: &CliError, code: &str) -> (b: bool)
    ensures
        b == (opt_view(e.code) == Some(code@)),
{
    match &e.code {
        Some(c) => crate::branch::vec_equal(&chars_of(c.as_str()), &chars_of(code)),
        None => false,
    }
}

// ---------------------------------------------------------------------------
// single commands

/// `herdr agent prompt <target> <text>` (submitted server-side) or
/// `herdr pane send-text <pane> <text>` (only pasted).
pub open spec fn send_args(agent: HerdrAgent, text: Seq<char>, submit: bool) -> Seq<Seq<char>> {
    if submit {
        seq!["agent"@, "prompt"@, agent.target@, text]
    } else {
        seq!["pane"@, "send-text"@, agent.pane_id@, text]
    }
}

/// The command that hands `text` to `agent`. `_submit_delay_ms` is kept for
/// compatibility and unused: submission happens server-side.
pub fn send_to_agent(agent: &HerdrAgent, text: &str, submit: bool, _submit_delay_ms: u64) -> (r: Vec<String>)
    ensures
        views(r@) == send_args(*agent, text@, submit),
{
    let mut args: Vec<String> = Vec::new();
    if submit {
        args.push(arg("agent"));
        args.push(arg("prompt"));
        args.push(agent.target.clone());
    } else {
        args.push(arg("pane"));
        args.push(arg("send-text"));
        args.push(agent.pane_id.clone());
    }
    args.push(arg(text));
    assert(views(args@) =~= send_args(*agent, text@, submit));
    args
}

/// The outcome of a delivery: never retried through raw input.
pub fn delivered(answer: Result<Json, CliError>) -> (r: Result<(), String>)
    ensures
        answer is Ok ==> r is Ok,
        answer is Err ==> r is Err && r->Err_0@ == answer->Err_0.message@,
{
    match answer {
        Ok(_) => Ok(()),
        Err(e) => Err(e.message),
    }
}

pub fn list_agents_command() -> (r: Vec<String>)
    ensures
        views(r@) == seq!["agent"@, "list"@],
{
    let mut args: Vec<String> = Vec::new();
    args.push(arg("agent"));
    args.push(arg("list"));
    assert(views(args@) =~= seq!["agent"@, "list"@]);
    args
}

/// `agent list` answer → agents, `own_pane` (`$HERDR_PANE_ID`) excluded.
pub fn list_agents(answer: Result<Json, CliError>, own_pane: &str) -> (r: Result<Vec<HerdrAgent>, String>)
    ensures
        answer is Err ==> r is Err && r->Err_0@ == answer->Err_0.message@,
        answer is Ok ==> r is Ok && r->Ok_0@.map_values(|h: HerdrAgent| crate::herdr::agent_view(h))
            == crate::herdr::agents_in(
            crate::herdr::items_at(answer->Ok_0, "result"@, "agents"@),
            own_pane@,
        ),
{
    match answer {
        Ok(v) => Ok(agents_from(&v, own_pane)),
        Err(e) => Err(e.message),
    }
}

pub fn list_workspaces_command() -> (r: Vec<String>)
    ensures
        views(r@) == seq!["workspace"@, "list"@],
{
    let mut args: Vec<String> = Vec::new();
    args.push(arg("workspace"));
    args.push(arg("list"));
    assert(views(args@) =~= seq!["workspace"@, "list"@]);
    args
}

/// `workspace list` answer → workspaces.
pub fn list_workspaces(answer: Result<Json, CliError>) -> (r: Result<Vec<HerdrWorkspace>, String>)
    ensures
        answer is Err ==> r is Err && r->Err_0@ == answer->Err_0.message@,
        answer is Ok ==> r is Ok && r->Ok_0@.map_values(
            |w: HerdrWorkspace| crate::herdr::workspace_view(w),
        ) == crate::herdr::workspaces_in(
            crate::herdr::items_at(answer->Ok_0, "result"@, "workspaces"@),
        ),
{
    match answer {
        Ok(v) => Ok(workspaces_from(&v)),
        Err(e) => Err(e.message),
    }
}

pub open spec fn worktree_list_args(repo_root: Seq<char>) -> Seq<Seq<char>> {
    seq!["worktree"@, "list"@, "--cwd"@, repo_root]
}

pub fn list_worktrees_command(repo_root: &str) -> (r: Vec<String>)
    ensures
        views(r@) == worktree_list_args(repo_root@),
{
    let mut args: Vec<String> = Vec::new();
    args.push(arg("worktree"));
    args.push(arg("list"));
    args.push(arg("--cwd"));
    args.push(arg(repo_root));
    assert(views(args@) =~= worktree_list_args(repo_root@));
    args
}

/// `worktree list --cwd` answer → the repo's openable checkouts.
pub fn list_worktrees(answer: Result<Json, CliError>) -> (r: Result<Vec<crate::herdr::RepoWorktree>, String>)
    ensures
        answer is Err ==> r is Err && r->Err_0@ == answer->Err_0.message@,
        answer is Ok && field(answer->Ok_0, "result"@) is None ==> r is Ok && r->Ok_0@.len() == 0,
        answer is Ok && field(answer->Ok_0, "result"@) is Some ==> r is Ok && r->Ok_0@.map_values(
            |w: crate::herdr::RepoWorktree| crate::herdr::worktree_view(w),
        ) == crate::herdr::worktrees_in(
            match crate::json::array_of(field(field(answer->Ok_0, "result"@)->0, "worktrees"@)) {
                Some(a) => a,
                None => Seq::empty(),
            },
        ),
{
    match answer {
        Ok(v) => match v.get("result") {
            Some(result) => Ok(parse_worktrees(result)),
            None => Ok(Vec::new()),
        },
        Err(e) => Err(e.message),
    }
}

/// The arguments of `herdr pane zoom <own pane> --toggle`, which the caller
/// runs; only inside a herdr pane.
pub fn zoom_toggle(own_pane: &str) -> (r: Result<Vec<String>, String>)
    ensures
        own_pane@.len() == 0 ==> r is Err && r->Err_0@ == "not running inside a herdr pane"@,
        own_pane@.len() > 0 ==> r is Ok && views(r->Ok_0@) == seq![
            "pane"@,
            "zoom"@,
            own_pane@,
            "--toggle"@,
        ],
{
    if chars_of(own_pane).len() == 0 {
        return Err(owned("not running inside a herdr pane"));
    }
    let mut args: Vec<String> = Vec::new();
    args.push(arg("pane"));
    args.push(arg("zoom"));
    args.push(arg(own_pane));
    args.push(arg("--toggle"));
    assert(views(args@) =~= seq!["pane"@, "zoom"@, own_pane@, "--toggle"@]);
    Ok(args)
}

/// The arguments of `herdr notification show <message>`, which the caller
/// runs.
pub fn notify(message: &str) -> (r: Vec<String>)
    ensures
        views(r@) == seq!["notification"@, "show"@, message@],
{
    let mut args: Vec<String> = Vec::new();
    args.push(arg("notification"));
    args.push(arg("show"));
    args.push(arg(message));
    assert(views(args@) =~= seq!["notification"@, "show"@, message@]);
    args
}

// ---------------------------------------------------------------------------
// wait_agent_status

pub enum WaitPhase {
    Detecting,
    Pausing,
    Waiting,
    Finished,
}

/// Wait for detection (`agent get` until it stops answering
/// `agent_not_found`, 100 ms apart), then readiness (`agent wait --until`),
/// both within one budget that starts at `started_ns`.
pub struct WaitAgent {
    pub target: String,
    pub status: String,
    pub timeout_ms: u64,
    pub started_ns: u64,
    pub phase: WaitPhase,
}

/// Budget left at `now_ns`, in nanoseconds.
pub open spec fn remaining(timeout_ms: u64, started_ns: u64, now_ns: u64) -> int {
    let budget = timeout_ms * 1_000_000;
    let elapsed = if now_ns >= started_ns {
        now_ns - started_ns
    } else {
        0
    };
    if budget > elapsed {
        budget - elapsed
    } else {
        0
    }
}

pub open spec fn not_detected(target: Seq<char>, timeout_ms: u64) -> Seq<char> {
    "agent "@ + target + " was not detected within "@ + decimal(timeout_ms as nat) + "ms"@
}

pub open spec fn not_ready(target: Seq<char>, timeout_ms: u64) -> Seq<char> {
    "agent "@ + target + " was not ready within "@ + decimal(timeout_ms as nat) + "ms"@
}

pub open spec fn get_args(target: Seq<char>) -> Seq<Seq<char>> {
    seq!["agent"@, "get"@, target]
}

pub open spec fn wait_args(target: Seq<char>, status: Seq<char>, ms: nat) -> Seq<Seq<char>> {
    seq!["agent"@, "wait"@, target, "--until"@, status, "--timeout"@, decimal(ms)]
}

fn remaining_ns(timeout_ms: u64, started_ns: u64, now_ns: u64) -> (r: u128)
    ensures
        r == remaining(timeout_ms, started_ns, now_ns),
{
    let budget: u128 = (timeout_ms as u128) * 1_000_000;
    let elapsed: u128 = if now_ns >= started_ns {
        (now_ns - started_ns) as u128
    } else {
        0
    };
    if budget > elapsed {
        budget - elapsed
    } else {
        0
    }
}

fn message(parts_a: &str, target: &String, parts_b: &str, ms: u64, parts_c: &str) -> (r: String)
    ensures
        r@ == parts_a@ + target@ + parts_b@ + decimal(ms as nat) + parts_c@,
{
    let mut m = chars_of(parts_a);
    push_string(&mut m, target);
    push_str(&mut m, parts_b);
    let d = decimal_string(ms);
    append(&mut m, &d);
    push_str(&mut m, parts_c);
    string_of(&m)
}

impl WaitAgent {
    /// One transition: what the wait does after `ev` at `now_ns`.
    pub open spec fn next(self, ev: Event, now_ns: u64, new: WaitAgent, s: Step<()>) -> bool {
        let left = remaining(self.timeout_ms, self.started_ns, now_ns);
        &&& new.target == self.target
        &&& new.status == self.status
        &&& new.timeout_ms == self.timeout_ms
        &&& new.started_ns == self.started_ns
        &&& match self.phase {
            WaitPhase::Detecting => {
                // detected: wait for the status within what is left, in whole ms
                &&& ran_ok(ev) && left / 1_000_000 == 0 ==> is_failure(s) && err_of(s)
                    == not_ready(self.target@, self.timeout_ms) && new.phase is Finished
                &&& ran_ok(ev) && left / 1_000_000 > 0 ==> is_run(s) && args_of(s) == wait_args(
                    self.target@,
                    self.status@,
                    (left / 1_000_000) as nat,
                ) && new.phase is Waiting
                // not detected yet: pause up to 100 ms, never past the budget
                &&& ran_err(ev) && err_code(ev) == Some("agent_not_found"@) ==> (s matches Step::SleepNs(
                    ns,
                ) && ns == (if left < 100_000_000 {
                    left
                } else {
                    100_000_000
                })) && new.phase is Pausing
                // any other error ends the wait with its message
                &&& ran_err(ev) && err_code(ev) != Some("agent_not_found"@) ==> is_failure(s)
                    && err_of(s) == err_message(ev) && new.phase is Finished
                &&& ev is Slept ==> is_failure(s) && err_of(s) == out_of_order() && new.phase is Finished
            },
            WaitPhase::Pausing => {
                &&& ev is Slept && left == 0 ==> is_failure(s) && err_of(s) == not_detected(
                    self.target@,
                    self.timeout_ms,
                ) && new.phase is Finished
                &&& ev is Slept && left > 0 ==> is_run(s) && args_of(s) == get_args(self.target@)
                    && new.phase is Detecting
                &&& ev is Ran ==> is_failure(s) && err_of(s) == out_of_order() && new.phase is Finished
            },
            WaitPhase::Waiting => {
                &&& ran_ok(ev) ==> (s matches Step::Done(Ok(_)))
                &&& ran_err(ev) ==> is_failure(s) && err_of(s) == err_message(ev)
                &&& ev is Slept ==> is_failure(s) && err_of(s) == out_of_order()
                &&& new.phase is Finished
            },
            WaitPhase::Finished => is_failure(s) && err_of(s) == out_of_order() && new.phase is Finished,
        }
    }

    /// Probe detection, or give up when the budget is already spent.
    fn probe(&mut self, now_ns: u64) -> (s: Step<()>)
        ensures
            final(self).target == old(self).target,
            final(self).status == old(self).status,
            final(self).timeout_ms == old(self).timeout_ms,
            final(self).started_ns == old(self).started_ns,
            remaining(old(self).timeout_ms, old(self).started_ns, now_ns) == 0 ==> is_failure(s)
                && err_of(s) == not_detected(old(self).target@, old(self).timeout_ms)
                && final(self).phase is Finished,
            remaining(old(self).timeout_ms, old(self).started_ns, now_ns) > 0 ==> args_of(s)
                == get_args(old(self).target@) && is_run(s) && final(self).phase is Detecting,
    {
        if remaining_ns(self.timeout_ms, self.started_ns, now_ns) == 0 {
            self.phase = WaitPhase::Finished;
            return Step::Done(
                Err(message("agent ", &self.target, " was not detected within ", self.timeout_ms, "ms")),
            );
        }
        self.phase = WaitPhase::Detecting;
        let mut args: Vec<String> = Vec::new();
        args.push(arg("agent"));
        args.push(arg("get"));
        args.push(self.target.clone());
        assert(views(args@) =~= get_args(self.target@));
        Step::Run(args)
    }

    /// Continue after `ev`, at `now_ns`.
    pub fn resume(&mut self, ev: Event, now_ns: u64) -> (s: Step<()>)
        ensures
            old(self).next(ev, now_ns, *final(self), s),
    {
        match self.phase {
            WaitPhase::Detecting => match ev {
                Event::Ran(Ok(_)) => {
                    let left = remaining_ns(self.timeout_ms, self.started_ns, now_ns);
                    let ms: u128 = left / 1_000_000;
                    if ms == 0 {
                        self.phase = WaitPhase::Finished;
                        return Step::Done(
                            Err(
                                message(
                                    "agent ",
                                    &self.target,
                                    " was not ready within ",
                                    self.timeout_ms,
                                    "ms",
                                ),
                            ),
                        );
                    }
                    assert(ms <= self.timeout_ms);
                    let ms64: u64 = ms as u64;
                    let mut args: Vec<String> = Vec::new();
                    args.push(arg("agent"));
                    args.push(arg("wait"));
                    args.push(self.target.clone());
                    args.push(arg("--until"));
                    args.push(self.status.clone());
                    args.push(arg("--timeout"));
                    args.push(string_of(&decimal_string(ms64)));
                    assert(views(args@) =~= wait_args(self.target@, self.status@, ms as nat));
                    self.phase = WaitPhase::Waiting;
                    Step::Run(args)
                },
                Event::Ran(Err(e)) => {
                    if is_code(&e, "agent_not_found") {
                        let left = remaining_ns(self.timeout_ms, self.started_ns, now_ns);
                        let ns: u64 = if left < 100_000_000 {
                            left as u64
                        } else {
                            100_000_000
                        };
                        self.phase = WaitPhase::Pausing;
                        Step::SleepNs(ns)
                    } else {
                        self.phase = WaitPhase::Finished;
                        Step::Done(Err(e.message))
                    }
                },
                Event::Slept => {
                    self.phase = WaitPhase::Finished;
                    unexpected()
                },
            },
            WaitPhase::Pausing => match ev {
                Event::Slept => self.probe(now_ns),
                _ => {
                    self.phase = WaitPhase::Finished;
                    unexpected()
                },
            },
            WaitPhase::Waiting => {
                self.phase = WaitPhase::Finished;
                match ev {
                    Event::Ran(Ok(_)) => Step::Done(Ok(())),
                    Event::Ran(Err(e)) => Step::Done(Err(e.message)),
                    Event::Slept => unexpected(),
                }
            },
            WaitPhase::Finished => unexpected(),
        }
    }
}

/// What starting a wait at `now_ns` gives: the first detection probe, or
/// at once the timeout when the budget is zero.
pub open spec fn wait_started<T>(
    target: Seq<char>,
    status: Seq<char>,
    timeout_ms: u64,
    now_ns: u64,
    w: WaitAgent,
    s: Step<T>,
) -> bool {
    &&& w.target@ == target
    &&& w.status@ == status
    &&& w.timeout_ms == timeout_ms
    &&& w.started_ns == now_ns
    &&& timeout_ms == 0 ==> is_failure(s) && err_of(s) == not_detected(target, timeout_ms)
        && w.phase is Finished
    &&& timeout_ms > 0 ==> is_run(s) && args_of(s) == get_args(target) && w.phase is Detecting
}

/// Wait, from `now_ns`, for detection of `target` and then for it to reach
/// `status`, both within `timeout_ms`. `pane run` returns before herdr
/// detects the agent; `agent wait` cannot wait for that.
pub fn wait_agent_status(target: &str, status: &str, timeout_ms: u64, now_ns: u64) -> (r: (
    WaitAgent,
    Step<()>,
))
    ensures
        wait_started(target@, status@, timeout_ms, now_ns, r.0, r.1),
{
    let mut w = WaitAgent {
        target: owned(target),
        status: owned(status),
        timeout_ms,
        started_ns: now_ns,
        phase: WaitPhase::Detecting,
    };
    let s = w.probe(now_ns);
    (w, s)
}

// ---------------------------------------------------------------------------
// relaying a sub-operation's steps

/// `outer` asks for what `inner` asks for, or fails as it failed.
pub open spec fn relays<T, U>(inner: Step<T>, outer: Step<U>) -> bool {
    match inner {
        Step::Run(a) => is_run(outer) && args_of(outer) == views(a@),
        Step::SleepMs(n) => outer == Step::<U>::SleepMs(n),
        Step::SleepNs(n) => outer == Step::<U>::SleepNs(n),
        Step::Done(Err(e)) => is_failure(outer) && err_of(outer) == e@,
        Step::Done(Ok(_)) => false,
    }
}

fn relay<T, U>(inner: Step<T>) -> (outer: Step<U>)
    requires
        !(inner matches Step::Done(Ok(_))),
    ensures
        relays(inner, outer),
{
    match inner {
        Step::Run(a) => Step::Run(a),
        Step::SleepMs(n) => Step::SleepMs(n),
        Step::SleepNs(n) => Step::SleepNs(n),
        Step::Done(Err(e)) => Step::Done(Err(e)),
        Step::Done(Ok(_)) => unexpected(),
    }
}

fn copy_worktree_opts(w: &WorktreeOpts) -> (r: WorktreeOpts)
    ensures
        r == *w,
{
    WorktreeOpts {
        branch: w.branch.clone(),
        base: w.base.clone(),
        path: w.path.clone(),
        label: w.label.clone(),
        trust_repository: w.trust_repository,
    }
}

// ---------------------------------------------------------------------------
// open_or_create_worktree

pub enum OpenPhase {
    Opening,
    Creating,
    Finished,
}

/// Open the worktree for `wt.branch` in the repo at `repo`, creating it (and
/// the branch, if needed) only when herdr reports `worktree_not_found`. Any
/// other error is returned as-is; nothing is retried with extra trust.
pub struct OpenWorktree {
    pub repo: String,
    pub wt: WorktreeOpts,
    pub focus: bool,
    pub phase: OpenPhase,
}

/// The `result` object of a successful answer.
pub open spec fn result_of(ev: Event) -> Option<Json> {
    field(answer(ev), "result"@)
}

/// `s` finishes as `r` says: with the opened worktree, or with the message.
pub open spec fn finishes_opened(s: Step<OpenedWorktree>, r: Result<OpenedView, Seq<char>>) -> bool {
    match s {
        Step::Done(Ok(o)) => r == Ok::<OpenedView, Seq<char>>(opened_view(o)),
        Step::Done(Err(e)) => r == Err::<OpenedView, Seq<char>>(e@),
        _ => false,
    }
}

/// Starting to open `wt` in `repo`: both must be non-blank, then `worktree
/// open` runs first.
pub open spec fn open_started<T>(
    repo: Seq<char>,
    wt: WorktreeOpts,
    focus: bool,
    m: OpenWorktree,
    s: Step<T>,
) -> bool {
    &&& m.repo@ == repo
    &&& m.wt == wt
    &&& m.focus == focus
    &&& trim_ws(repo).len() == 0 ==> is_failure(s) && err_of(s)
        == "worktree: repository directory is empty"@ && m.phase is Finished
    &&& trim_ws(repo).len() > 0 && trim_ws(wt.branch@).len() == 0 ==> is_failure(s) && err_of(s)
        == "worktree: branch name is empty"@ && m.phase is Finished
    &&& trim_ws(repo).len() > 0 && trim_ws(wt.branch@).len() > 0 ==> is_run(s) && args_of(s)
        == worktree_args(false, repo, wt, focus) && m.phase is Opening
}

pub fn open_or_create_worktree(repo_cwd: &str, wt: &WorktreeOpts, focus: bool) -> (r: (
    OpenWorktree,
    Step<OpenedWorktree>,
))
    ensures
        open_started(repo_cwd@, *wt, focus, r.0, r.1),
{
    let mut m = OpenWorktree {
        repo: owned(repo_cwd),
        wt: copy_worktree_opts(wt),
        focus,
        phase: OpenPhase::Finished,
    };
    if trim_vec(&chars_of(repo_cwd)).len() == 0 {
        return (m, Step::Done(Err(owned("worktree: repository directory is empty"))));
    }
    if trim_vec(&chars_of(wt.branch.as_str())).len() == 0 {
        return (m, Step::Done(Err(owned("worktree: branch name is empty"))));
    }
    m.phase = OpenPhase::Opening;
    let args = worktree_command(false, &m.repo, &m.wt, focus);
    (m, Step::Run(args))
}

fn opened_step(result: Option<&Json>) -> (s: Step<OpenedWorktree>)
    ensures
        finishes_opened(s, opened_of(as_spec(result))),
{
    match parse_opened_worktree(result) {
        Ok(o) => Step::Done(Ok(o)),
        Err(e) => Step::Done(Err(e)),
    }
}

impl OpenWorktree {
    /// One transition of `open_or_create_worktree`.
    pub open spec fn next(self, ev: Event, new: OpenWorktree, s: Step<OpenedWorktree>) -> bool {
        &&& new.repo == self.repo
        &&& new.wt == self.wt
        &&& new.focus == self.focus
        &&& new.phase is Finished || (new.phase is Creating && self.phase is Opening)
        &&& match self.phase {
            OpenPhase::Opening => {
                &&& ran_ok(ev) ==> finishes_opened(s, opened_of(result_of(ev)))
                &&& ran_err(ev) && err_code(ev) == Some("worktree_not_found"@) ==> is_run(s)
                    && args_of(s) == worktree_args(true, self.repo@, self.wt, self.focus)
                    && new.phase is Creating
                &&& ran_err(ev) && err_code(ev) != Some("worktree_not_found"@) ==> is_failure(s)
                    && err_of(s) == err_message(ev)
                &&& ev is Slept ==> is_failure(s) && err_of(s) == out_of_order()
            },
            OpenPhase::Creating => {
                &&& ran_ok(ev) ==> finishes_opened(s, opened_of(result_of(ev)))
                &&& ran_err(ev) ==> is_failure(s) && err_of(s) == err_message(ev)
                &&& ev is Slept ==> is_failure(s) && err_of(s) == out_of_order()
            },
            OpenPhase::Finished => is_failure(s) && err_of(s) == out_of_order(),
        }
    }

    /// Continue after `ev`.
    pub fn resume(&mut self, ev: Event) -> (s: Step<OpenedWorktree>)
        ensures
            old(self).next(ev, *final(self), s),
    {
        match self.phase {
            OpenPhase::Opening => {
                self.phase = OpenPhase::Finished;
                match ev {
                    Event::Ran(Ok(v)) => opened_step(v.get("result")),
                    Event::Ran(Err(e)) => {
                        if is_code(&e, "worktree_not_found") {
                            self.phase = OpenPhase::Creating;
                            Step::Run(worktree_command(true, &self.repo, &self.wt, self.focus))
                        } else {
                            Step::Done(Err(e.message))
                        }
                    },
                    Event::Slept => unexpected(),
                }
            },
            OpenPhase::Creating => {
                self.phase = OpenPhase::Finished;
                match ev {
                    Event::Ran(Ok(v)) => opened_step(v.get("result")),
                    Event::Ran(Err(e)) => Step::Done(Err(e.message)),
                    Event::Slept => unexpected(),
                }
            },
            OpenPhase::Finished => unexpected(),
        }
    }
}

// ---------------------------------------------------------------------------
// create_tab

pub enum TabPhase {
    Creating,
    /// An older herdr gave no root pane: find the tab's first pane.
    LookingUp { tab_id: String, result_text: String },
    Finished,
}

/// Create a new tab in a workspace; it finishes with the tab and its root
/// pane (one terminal, reused for the agent command).
pub struct CreateTab {
    pub workspace_id: String,
    pub cwd: String,
    pub label: String,
    pub focus: bool,
    pub phase: TabPhase,
}

pub open spec fn no_root_pane(result_text: Seq<char>) -> Seq<char> {
    "tab create: no root_pane.pane_id in response: "@ + result_text
}

pub open spec fn finishes_tab(s: Step<CreatedTab>, tab_id: Seq<char>, pane_id: Seq<char>) -> bool {
    s matches Step::Done(Ok(t)) && t.tab_id@ == tab_id && t.pane_id@ == pane_id
}

/// The pane id of the first pane in `tab_id` of a `pane list` answer.
pub open spec fn pane_of_tab(v: Json, tab_id: Seq<char>) -> Option<Seq<char>> {
    str_of(field_of(pane_in_tab_of(items_at(v, "result"@, "panes"@), tab_id), "pane_id"@))
}

pub open spec fn tab_started<T>(
    workspace_id: Seq<char>,
    cwd: Seq<char>,
    label: Seq<char>,
    focus: bool,
    t: CreateTab,
    s: Step<T>,
) -> bool {
    &&& t.workspace_id@ == workspace_id
    &&& t.cwd@ == cwd
    &&& t.label@ == label
    &&& t.focus == focus
    &&& t.phase is Creating
    &&& is_run(s)
    &&& args_of(s) == tab_create_args(workspace_id, cwd, label, focus)
}

pub fn create_tab(workspace_id: &str, cwd: &str, label: &str, focus: bool) -> (r: (
    CreateTab,
    Step<CreatedTab>,
))
    ensures
        tab_started(workspace_id@, cwd@, label@, focus, r.0, r.1),
{
    let t = CreateTab {
        workspace_id: owned(workspace_id),
        cwd: owned(cwd),
        label: owned(label),
        focus,
        phase: TabPhase::Creating,
    };
    let args = tab_create_command(&t.workspace_id, &t.cwd, &t.label, focus);
    (t, Step::Run(args))
}

impl CreateTab {
    /// One transition of `create_tab`.
    pub open spec fn next(self, ev: Event, new: CreateTab, s: Step<CreatedTab>) -> bool {
        &&& new.workspace_id == self.workspace_id
        &&& new.cwd == self.cwd
        &&& new.label == self.label
        &&& new.focus == self.focus
        &&& match self.phase {
            TabPhase::Creating => {
                let r = result_of(ev);
                &&& ran_ok(ev) && tab_id_in(r).len() == 0 ==> is_failure(s) && err_of(s)
                    == "tab create: no tab_id in response: "@ + text_of(r) && new.phase is Finished
                &&& ran_ok(ev) && tab_id_in(r).len() > 0 && root_pane_in(r).len() > 0
                    ==> finishes_tab(s, tab_id_in(r), root_pane_in(r)) && new.phase is Finished
                &&& ran_ok(ev) && tab_id_in(r).len() > 0 && root_pane_in(r).len() == 0 ==> is_run(s)
                    && args_of(s) == pane_list_args(self.workspace_id@) && (new.phase matches TabPhase::LookingUp {
                    tab_id,
                    result_text,
                } && tab_id@ == tab_id_in(r) && result_text@ == text_of(r))
                &&& ran_err(ev) ==> is_failure(s) && err_of(s) == err_message(ev) && new.phase is Finished
                &&& ev is Slept ==> is_failure(s) && err_of(s) == out_of_order() && new.phase is Finished
            },
            TabPhase::LookingUp { tab_id, result_text } => {
                &&& ran_ok(ev) && pane_of_tab(answer(ev), tab_id@) is Some ==> finishes_tab(
                    s,
                    tab_id@,
                    pane_of_tab(answer(ev), tab_id@)->0,
                )
                &&& ran_ok(ev) && pane_of_tab(answer(ev), tab_id@) is None ==> is_failure(s)
                    && err_of(s) == no_root_pane(result_text@)
                // a failed lookup reports the missing root pane, not the lookup
                &&& ran_err(ev) ==> is_failure(s) && err_of(s) == no_root_pane(result_text@)
                &&& ev is Slept ==> is_failure(s) && err_of(s) == out_of_order()
                &&& new.phase is Finished
            },
            TabPhase::Finished => is_failure(s) && err_of(s) == out_of_order() && new.phase is Finished,
        }
    }

    fn no_root_pane_step(result_text: &String) -> (s: Step<CreatedTab>)
        ensures
            is_failure(s),
            err_of(s) == no_root_pane(result_text@),
    {
        let mut m = chars_of("tab create: no root_pane.pane_id in response: ");
        push_string(&mut m, result_text);
        Step::Done(Err(string_of(&m)))
    }

    /// Continue after `ev`.
    pub fn resume(&mut self, ev: Event) -> (s: Step<CreatedTab>)
        ensures
            old(self).next(ev, *final(self), s),
    {
        let mut phase = TabPhase::Finished;
        std::mem::swap(&mut phase, &mut self.phase);
        match phase {
            TabPhase::Creating => match ev {
                Event::Ran(Ok(v)) => match tab_answer(&v) {
                    TabAnswer::Created(t) => Step::Done(Ok(t)),
                    TabAnswer::Failed(m) => Step::Done(Err(m)),
                    TabAnswer::LookUpPane { tab_id, result_text } => {
                        self.phase = TabPhase::LookingUp { tab_id, result_text };
                        Step::Run(pane_list_command(&self.workspace_id))
                    },
                },
                Event::Ran(Err(e)) => Step::Done(Err(e.message)),
                Event::Slept => unexpected(),
            },
            TabPhase::LookingUp { tab_id, result_text } => match ev {
                Event::Ran(Ok(v)) => match pane_in_tab(&v, &tab_id) {
                    Some(pane_id) => Step::Done(Ok(CreatedTab { tab_id, pane_id })),
                    None => Self::no_root_pane_step(&result_text),
                },
                Event::Ran(Err(_)) => Self::no_root_pane_step(&result_text),
                Event::Slept => unexpected(),
            },
            TabPhase::Finished => unexpected(),
        }
    }
}

// ---------------------------------------------------------------------------
// run_agent_in_pane

pub enum RunPhase {
    Running,
    Settling,
    Renaming,
    Finished,
}

/// Run the agent command in an existing shell pane (`pane run` submits text
/// and Enter at once), let it settle 300 ms, then name it; naming is best
/// effort, as later calls use the pane id.
pub struct RunInPane {
    pub pane_id: String,
    pub name: String,
    pub label: String,
    pub cwd: String,
    pub phase: RunPhase,
}

/// The command line `pane run` types.
pub open spec fn command_line(argv: Seq<String>) -> Seq<char> {
    join_seqs(argv.map_values(|a: String| quote_arg(a@)), " "@)
}

/// The new agent's label: the program it runs, else its name.
pub open spec fn agent_label(argv: Seq<String>, name: Seq<char>) -> Seq<char> {
    if argv.len() > 0 {
        argv[0]@
    } else {
        name
    }
}

pub open spec fn run_args(pane_id: Seq<char>, argv: Seq<String>) -> Seq<Seq<char>> {
    seq!["pane"@, "run"@, pane_id, command_line(argv)]
}

pub open spec fn rename_args(pane_id: Seq<char>, name: Seq<char>) -> Seq<Seq<char>> {
    seq!["agent"@, "rename"@, pane_id, name]
}

pub open spec fn run_started<T>(
    pane_id: Seq<char>,
    name: Seq<char>,
    argv: Seq<String>,
    cwd: Seq<char>,
    r: RunInPane,
    s: Step<T>,
) -> bool {
    &&& r.pane_id@ == pane_id
    &&& r.name@ == name
    &&& r.label@ == agent_label(argv, name)
    &&& r.cwd@ == cwd
    &&& command_line(argv).len() == 0 ==> is_failure(s) && err_of(s) == "agent command is empty"@
        && r.phase is Finished
    &&& command_line(argv).len() > 0 ==> is_run(s) && args_of(s) == run_args(pane_id, argv)
        && r.phase is Running
}

/// The agent just started in `r`: status unknown until herdr detects it.
pub open spec fn started_agent(r: RunInPane) -> AgentView {
    AgentView {
        target: r.pane_id@,
        label: r.label@,
        status: "unknown"@,
        cwd: r.cwd@,
        pane_id: r.pane_id@,
    }
}

pub fn run_agent_in_pane(pane_id: &str, name: &str, argv: &Vec<String>, cwd: &str) -> (r: (
    RunInPane,
    Step<HerdrAgent>,
))
    ensures
        run_started(pane_id@, name@, argv@, cwd@, r.0, r.1),
{
    let label = if argv.len() > 0 {
        argv[0].clone()
    } else {
        owned(name)
    };
    let mut r = RunInPane {
        pane_id: owned(pane_id),
        name: owned(name),
        label,
        cwd: owned(cwd),
        phase: RunPhase::Finished,
    };
    let cmd = shell_join(argv);
    if chars_of(cmd.as_str()).len() == 0 {
        return (r, Step::Done(Err(owned("agent command is empty"))));
    }
    let mut args: Vec<String> = Vec::new();
    args.push(arg("pane"));
    args.push(arg("run"));
    args.push(arg(pane_id));
    args.push(cmd);
    assert(views(args@) =~= run_args(pane_id@, argv@));
    r.phase = RunPhase::Running;
    (r, Step::Run(args))
}

impl RunInPane {
    /// One transition of `run_agent_in_pane`.
    pub open spec fn next(self, ev: Event, new: RunInPane, s: Step<HerdrAgent>) -> bool {
        &&& new.pane_id == self.pane_id
        &&& new.name == self.name
        &&& new.label == self.label
        &&& new.cwd == self.cwd
        &&& match self.phase {
            RunPhase::Running => {
                &&& ran_ok(ev) ==> s == Step::<HerdrAgent>::SleepMs(300) && new.phase is Settling
                &&& ran_err(ev) ==> is_failure(s) && err_of(s) == err_message(ev) && new.phase is Finished
                &&& ev is Slept ==> is_failure(s) && err_of(s) == out_of_order() && new.phase is Finished
            },
            RunPhase::Settling => {
                &&& ev is Slept ==> is_run(s) && args_of(s) == rename_args(self.pane_id@, self.name@)
                    && new.phase is Renaming
                &&& ev is Ran ==> is_failure(s) && err_of(s) == out_of_order() && new.phase is Finished
            },
            RunPhase::Renaming => {
                // whatever the rename answered
                &&& ev is Ran ==> (s matches Step::Done(Ok(a)) && agent_view(a) == started_agent(self))
                &&& ev is Slept ==> is_failure(s) && err_of(s) == out_of_order()
                &&& new.phase is Finished
            },
            RunPhase::Finished => is_failure(s) && err_of(s) == out_of_order() && new.phase is Finished,
        }
    }

    /// Continue after `ev`.
    pub fn resume(&mut self, ev: Event) -> (s: Step<HerdrAgent>)
        ensures
            old(self).next(ev, *final(self), s),
    {
        match self.phase {
            RunPhase::Running => match ev {
                Event::Ran(Ok(_)) => {
                    self.phase = RunPhase::Settling;
                    Step::SleepMs(300)
                },
                Event::Ran(Err(e)) => {
                    self.phase = RunPhase::Finished;
                    Step::Done(Err(e.message))
                },
                Event::Slept => {
                    self.phase = RunPhase::Finished;
                    unexpected()
                },
            },
            RunPhase::Settling => match ev {
                Event::Slept => {
                    let mut args: Vec<String> = Vec::new();
                    args.push(arg("agent"));
                    args.push(arg("rename"));
                    args.push(self.pane_id.clone());
                    args.push(self.name.clone());
                    assert(views(args@) =~= rename_args(self.pane_id@, self.name@));
                    self.phase = RunPhase::Renaming;
                    Step::Run(args)
                },
                Event::Ran(_) => {
                    self.phase = RunPhase::Finished;
                    unexpected()
                },
            },
            RunPhase::Renaming => {
                self.phase = RunPhase::Finished;
                match ev {
                    Event::Ran(_) => Step::Done(
                        Ok(
                            HerdrAgent {
                                target: self.pane_id.clone(),
                                label: self.label.clone(),
                                status: owned("unknown"),
                                cwd: self.cwd.clone(),
                                pane_id: self.pane_id.clone(),
                            },
                        ),
                    ),
                    Event::Slept => unexpected(),
                }
            },
            RunPhase::Finished => unexpected(),
        }
    }
}

// ---------------------------------------------------------------------------
// start_agent

pub enum StartStage {
    Worktree(OpenWorktree),
    Tab(CreateTab),
    /// Looking for the pane to split.
    Listing,
    Splitting,
    Running(RunInPane),
    Finished,
}

/// Spawn a new agent; it finishes with the agent we can later send to.
///
/// - with `worktree`: `placement` is ignored. Open (or create) the git
///   worktree of `cwd` as its own herdr workspace and run the agent in its
///   fresh root pane; if that workspace was already open, run it in a new tab
///   there instead of touching the existing root pane. The agent's cwd is the
///   checkout path.
/// - `placement = "tab"` (or empty): create a new tab and run the agent in
///   its root pane.
/// - `placement = "right" | "down"`: split a pane of the selected workspace
///   (`pane split` has no `--workspace`: the parent is picked from `pane
///   list`), then run the command in the new shell pane.
pub struct StartAgent {
    pub name: String,
    pub argv: Vec<String>,
    pub cwd: String,
    pub focus: bool,
    pub workspace_id: String,
    /// Label of a new tab: the given one, else the agent name.
    pub tab_label: String,
    /// Trimmed and lower-cased.
    pub placement: String,
    /// `$HERDR_PANE_ID`, preferred as split parent.
    pub own_pane: String,
    /// Where the agent runs once its pane exists.
    pub run_cwd: String,
    pub stage: StartStage,
}

pub open spec fn tab_label_of(opts: StartAgentOpts) -> Seq<char> {
    if opts.tab_label@.len() == 0 {
        opts.name@
    } else {
        opts.tab_label@
    }
}

pub open spec fn placement_of(opts: StartAgentOpts) -> Seq<char> {
    lower_seq(trim_ws(opts.placement@))
}

/// `herdr pane split <parent> --direction <placement> [--cwd C] --focus|--no-focus`.
pub open spec fn split_args(parent: Seq<char>, placement: Seq<char>, cwd: Seq<char>, focus: bool) -> Seq<
    Seq<char>,
> {
    seq!["pane"@, "split"@, parent, "--direction"@, placement] + opt_flag("--cwd"@, cwd) + seq![
        focus_flag(focus),
    ]
}

/// The pane to split: see `herdr::split_parent`.
pub open spec fn parent_in(v: Json, workspace_id: Seq<char>, own_pane: Seq<char>) -> Option<Seq<char>> {
    str_of(field_of(best_pane(items_at(v, "result"@, "panes"@), workspace_id, own_pane), "pane_id"@))
}

pub open spec fn split_pane_in(ev: Event) -> Option<Seq<char>> {
    non_empty(field_of(field_of(result_of(ev), "pane"@), "pane_id"@))
}

/// Starting an agent: the checks, in order, then the first step of the
/// chosen way to get a pane.
pub open spec fn agent_start<T>(opts: StartAgentOpts, own_pane: Seq<char>, a: StartAgent, s: Step<T>) -> bool {
    let valid = opts.argv.len() > 0 && trim_ws(opts.name@).len() > 0;
    let p = placement_of(opts);
    let ws_ok = trim_ws(opts.workspace_id@).len() > 0;
    &&& a.name@ == opts.name@
    &&& a.argv@ == opts.argv@
    &&& a.cwd@ == opts.cwd@
    &&& a.focus == opts.focus
    &&& a.workspace_id@ == opts.workspace_id@
    &&& a.tab_label@ == tab_label_of(opts)
    &&& a.own_pane@ == own_pane
    &&& opts.argv.len() == 0 ==> is_failure(s) && err_of(s) == "agent command is empty"@
        && a.stage is Finished
    &&& opts.argv.len() > 0 && trim_ws(opts.name@).len() == 0 ==> is_failure(s) && err_of(s)
        == "agent name is empty"@ && a.stage is Finished
    &&& valid && opts.worktree is Some ==> (a.stage matches StartStage::Worktree(m) && open_started(
        opts.cwd@,
        opts.worktree->0,
        opts.focus,
        m,
        s,
    ))
    &&& valid && opts.worktree is None ==> a.placement@ == p && a.run_cwd@ == opts.cwd@
    &&& valid && opts.worktree is None && !ws_ok ==> is_failure(s) && err_of(s)
        == "workspace is empty"@ && a.stage is Finished
    &&& valid && opts.worktree is None && ws_ok && (p == "tab"@ || p.len() == 0) ==> (
    a.stage matches StartStage::Tab(t) && tab_started(
        opts.workspace_id@,
        opts.cwd@,
        tab_label_of(opts),
        opts.focus,
        t,
        s,
    ))
    &&& valid && opts.worktree is None && ws_ok && (p == "right"@ || p == "down"@) ==> is_run(s)
        && args_of(s) == seq!["pane"@, "list"@, "--workspace"@, opts.workspace_id@]
        && a.stage is Listing
    &&& valid && opts.worktree is None && ws_ok && p != "tab"@ && p.len() > 0 && p != "right"@
        && p != "down"@ ==> is_failure(s) && err_of(s) == "unsupported agent placement: "@ + p
        && a.stage is Finished
}

pub fn start_agent(opts: &StartAgentOpts, own_pane: &str) -> (r: (StartAgent, Step<HerdrAgent>))
    ensures
        agent_start(*opts, own_pane@, r.0, r.1),
{
    let tab_label = if chars_of(opts.tab_label.as_str()).len() == 0 {
        opts.name.clone()
    } else {
        opts.tab_label.clone()
    };
    let placement = lower_vec(&trim_vec(&chars_of(opts.placement.as_str())));
    let mut argv: Vec<String> = Vec::new();
    let mut i: usize = 0;
    while i < opts.argv.len()
        invariant
            i <= opts.argv.len(),
            argv@ == opts.argv@.take(i as int),
        decreases opts.argv.len() - i,
    {
        argv.push(opts.argv[i].clone());
        assert(argv@ =~= opts.argv@.take(i + 1));
        i += 1;
    }
    assert(argv@ =~= opts.argv@);
    let mut a = StartAgent {
        name: opts.name.clone(),
        argv,
        cwd: opts.cwd.clone(),
        focus: opts.focus,
        workspace_id: opts.workspace_id.clone(),
        tab_label,
        placement: string_of(&placement),
        own_pane: owned(own_pane),
        run_cwd: opts.cwd.clone(),
        stage: StartStage::Finished,
    };
    if opts.argv.len() == 0 {
        return (a, Step::Done(Err(owned("agent command is empty"))));
    }
    if trim_vec(&chars_of(opts.name.as_str())).len() == 0 {
        return (a, Step::Done(Err(owned("agent name is empty"))));
    }
    match &opts.worktree {
        Some(w) => {
            let (m, s) = open_or_create_worktree(opts.cwd.as_str(), w, opts.focus);
            a.stage = StartStage::Worktree(m);
            return (a, relay(s));
        },
        None => {},
    }
    if trim_vec(&chars_of(opts.workspace_id.as_str())).len() == 0 {
        return (a, Step::Done(Err(owned("workspace is empty"))));
    }
    proof {
        reveal_strlit("tab");
        reveal_strlit("right");
        reveal_strlit("down");
    }
    let is_tab = crate::branch::vec_equal(&placement, &chars_of("tab"));
    if is_tab || placement.len() == 0 {
        let (t, s) = create_tab(
            opts.workspace_id.as_str(),
            opts.cwd.as_str(),
            a.tab_label.as_str(),
            opts.focus,
        );
        a.stage = StartStage::Tab(t);
        let out: Step<HerdrAgent> = relay(s);
        assert(tab_started(opts.workspace_id@, opts.cwd@, tab_label_of(*opts), opts.focus, t, s));
        assert(is_run(out));
        assert(args_of(out) == tab_create_args(opts.workspace_id@, opts.cwd@, tab_label_of(*opts), opts.focus));
        assert(placement_of(*opts) == placement@);
        assert(placement_of(*opts) != "right"@);
        return (a, out);
    }
    let is_right = crate::branch::vec_equal(&placement, &chars_of("right"));
    let is_down = crate::branch::vec_equal(&placement, &chars_of("down"));
    if !is_right && !is_down {
        let mut m = chars_of("unsupported agent placement: ");
        append(&mut m, &placement);
        return (a, Step::Done(Err(string_of(&m))));
    }
    let mut args: Vec<String> = Vec::new();
    args.push(arg("pane"));
    args.push(arg("list"));
    args.push(arg("--workspace"));
    args.push(opts.workspace_id.clone());
    assert(views(args@) =~= seq!["pane"@, "list"@, "--workspace"@, opts.workspace_id@]);
    a.stage = StartStage::Listing;
    (a, Step::Run(args))
}

fn split_command(parent: &String, placement: &String, cwd: &String, focus: bool) -> (r: Vec<String>)
    ensures
        views(r@) == split_args(parent@, placement@, cwd@, focus),
{
    let mut args: Vec<String> = Vec::new();
    args.push(arg("pane"));
    args.push(arg("split"));
    args.push(parent.clone());
    args.push(arg("--direction"));
    args.push(placement.clone());
    let ghost head = views(args@);
    assert(head =~= seq!["pane"@, "split"@, parent@, "--direction"@, placement@]);
    if chars_of(cwd.as_str()).len() > 0 {
        args.push(arg("--cwd"));
        args.push(cwd.clone());
    }
    assert(views(args@) =~= head + opt_flag("--cwd"@, cwd@));
    let ghost mid = views(args@);
    if focus {
        args.push(arg("--focus"));
    } else {
        args.push(arg("--no-focus"));
    }
    assert(views(args@) =~= mid + seq![focus_flag(focus)]);
    args
}

impl StartAgent {
    pub open spec fn same_request(self, other: StartAgent) -> bool {
        &&& other.name == self.name
        &&& other.argv == self.argv
        &&& other.cwd == self.cwd
        &&& other.focus == self.focus
        &&& other.workspace_id == self.workspace_id
        &&& other.tab_label == self.tab_label
        &&& other.placement == self.placement
        &&& other.own_pane == self.own_pane
    }

    /// After the worktree step `s2`: an opened worktree gets a new tab when
    /// its workspace was already open, else the agent runs in its root pane.
    pub open spec fn after_open(
        self,
        m2: OpenWorktree,
        s2: Step<OpenedWorktree>,
        new: StartAgent,
        s: Step<HerdrAgent>,
    ) -> bool {
        match s2 {
            Step::Done(Ok(o)) => {
                &&& new.run_cwd@ == o.checkout_path@
                &&& o.already_open ==> (new.stage matches StartStage::Tab(t) && tab_started(
                    o.workspace_id@,
                    o.checkout_path@,
                    self.tab_label@,
                    self.focus,
                    t,
                    s,
                ))
                &&& !o.already_open ==> (new.stage matches StartStage::Running(r) && run_started(
                    o.pane_id@,
                    self.name@,
                    self.argv@,
                    o.checkout_path@,
                    r,
                    s,
                ))
            },
            _ => relays(s2, s) && new.stage == StartStage::Worktree(m2) && new.run_cwd
                == self.run_cwd,
        }
    }

    /// After the tab step `s2`: the agent runs in the new tab's root pane.
    pub open spec fn after_tab(self, t2: CreateTab, s2: Step<CreatedTab>, new: StartAgent, s: Step<
        HerdrAgent,
    >) -> bool {
        &&& new.run_cwd == self.run_cwd
        &&& match s2 {
            Step::Done(Ok(tab)) => new.stage matches StartStage::Running(r) && run_started(
                tab.pane_id@,
                self.name@,
                self.argv@,
                self.run_cwd@,
                r,
                s,
            ),
            _ => relays(s2, s) && new.stage == StartStage::Tab(t2),
        }
    }

    /// One transition of `start_agent`.
    pub open spec fn next(self, ev: Event, new: StartAgent, s: Step<HerdrAgent>) -> bool {
        &&& self.same_request(new)
        &&& match self.stage {
            StartStage::Worktree(m) => exists|m2: OpenWorktree, s2: Step<OpenedWorktree>|
                #[trigger] m.next(ev, m2, s2) && self.after_open(m2, s2, new, s),
            StartStage::Tab(t) => exists|t2: CreateTab, s2: Step<CreatedTab>|
                #[trigger] t.next(ev, t2, s2) && self.after_tab(t2, s2, new, s),
            StartStage::Listing => {
                let parent = parent_in(answer(ev), self.workspace_id@, self.own_pane@);
                &&& new.run_cwd == self.run_cwd
                &&& ran_ok(ev) && parent is None ==> is_failure(s) && err_of(s)
                    == "no pane to split in workspace "@ + self.workspace_id@ && new.stage is Finished
                &&& ran_ok(ev) && parent is Some ==> is_run(s) && args_of(s) == split_args(
                    parent->0,
                    self.placement@,
                    self.cwd@,
                    self.focus,
                ) && new.stage is Splitting
                &&& ran_err(ev) ==> is_failure(s) && err_of(s) == err_message(ev) && new.stage is Finished
                &&& ev is Slept ==> is_failure(s) && err_of(s) == out_of_order() && new.stage is Finished
            },
            StartStage::Splitting => {
                &&& new.run_cwd == self.run_cwd
                &&& ran_ok(ev) && split_pane_in(ev) is None ==> is_failure(s) && err_of(s)
                    == "pane split: no pane.pane_id in response: "@ + text_of(result_of(ev))
                    && new.stage is Finished
                &&& ran_ok(ev) && split_pane_in(ev) is Some ==> (new.stage matches StartStage::Running(
                    r,
                ) && run_started(split_pane_in(ev)->0, self.name@, self.argv@, self.cwd@, r, s))
                &&& ran_err(ev) ==> is_failure(s) && err_of(s) == err_message(ev) && new.stage is Finished
                &&& ev is Slept ==> is_failure(s) && err_of(s) == out_of_order() && new.stage is Finished
            },
            StartStage::Running(r) => exists|r2: RunInPane, s2: Step<HerdrAgent>|
                #[trigger] r.next(ev, r2, s2) && s == s2 && new.stage == StartStage::Running(r2)
                && new.run_cwd == self.run_cwd,
            StartStage::Finished => is_failure(s) && err_of(s) == out_of_order() && new.stage is Finished
                && new.run_cwd == self.run_cwd,
        }
    }

    /// Continue after `ev`.
    pub fn resume(&mut self, ev: Event) -> (s: Step<HerdrAgent>)
        ensures
            old(self).next(ev, *final(self), s),
    {
        let ghost before = *self;
        let mut stage = StartStage::Finished;
        std::mem::swap(&mut stage, &mut self.stage);
        match stage {
            StartStage::Worktree(mut m) => {
                let ghost m0 = m;
                let s2 = m.resume(ev);
                let ghost g2 = s2;
                match s2 {
                    Step::Done(Ok(o)) => {
                        self.run_cwd = o.checkout_path.clone();
                        if o.already_open {
                            let (t, st) = create_tab(
                                o.workspace_id.as_str(),
                                o.checkout_path.as_str(),
                                self.tab_label.as_str(),
                                self.focus,
                            );
                            self.stage = StartStage::Tab(t);
                            let s: Step<HerdrAgent> = relay(st);
                            assert(m0.next(ev, m, g2) && before.after_open(m, g2, *self, s));
                            s
                        } else {
                            let (r, st) = run_agent_in_pane(
                                o.pane_id.as_str(),
                                self.name.as_str(),
                                &self.argv,
                                o.checkout_path.as_str(),
                            );
                            self.stage = StartStage::Running(r);
                            assert(m0.next(ev, m, g2) && before.after_open(m, g2, *self, st));
                            st
                        }
                    },
                    other => {
                        let s: Step<HerdrAgent> = relay(other);
                        self.stage = StartStage::Worktree(m);
                        assert(m0.next(ev, m, g2) && before.after_open(m, g2, *self, s));
                        s
                    },
                }
            },
            StartStage::Tab(mut t) => {
                let ghost t0 = t;
                let s2 = t.resume(ev);
                let ghost g2 = s2;
                match s2 {
                    Step::Done(Ok(tab)) => {
                        let (r, st) = run_agent_in_pane(
                            tab.pane_id.as_str(),
                            self.name.as_str(),
                            &self.argv,
                            self.run_cwd.as_str(),
                        );
                        self.stage = StartStage::Running(r);
                        assert(t0.next(ev, t, g2) && before.after_tab(t, g2, *self, st));
                        st
                    },
                    other => {
                        let s: Step<HerdrAgent> = relay(other);
                        self.stage = StartStage::Tab(t);
                        assert(t0.next(ev, t, g2) && before.after_tab(t, g2, *self, s));
                        s
                    },
                }
            },
            StartStage::Listing => match ev {
                Event::Ran(Ok(v)) => match split_parent(&v, self.workspace_id.as_str(), self.own_pane.as_str()) {
                    Some(parent) => {
                        self.stage = StartStage::Splitting;
                        Step::Run(split_command(&parent, &self.placement, &self.cwd, self.focus))
                    },
                    None => {
                        let mut m = chars_of("no pane to split in workspace ");
                        push_string(&mut m, &self.workspace_id);
                        Step::Done(Err(string_of(&m)))
                    },
                },
                Event::Ran(Err(e)) => Step::Done(Err(e.message)),
                Event::Slept => unexpected(),
            },
            StartStage::Splitting => match ev {
                Event::Ran(Ok(v)) => {
                    let result = v.get("result");
                    match non_empty_str(at(at(result, "pane"), "pane_id")) {
                        Some(p) => {
                            let (r, st) = run_agent_in_pane(
                                p.as_str(),
                                self.name.as_str(),
                                &self.argv,
                                self.cwd.as_str(),
                            );
                            self.stage = StartStage::Running(r);
                            st
                        },
                        None => {
                            let mut m = chars_of("pane split: no pane.pane_id in response: ");
                            push_string(&mut m, &text(result));
                            Step::Done(Err(string_of(&m)))
                        },
                    }
                },
                Event::Ran(Err(e)) => Step::Done(Err(e.message)),
                Event::Slept => unexpected(),
            },
            StartStage::Running(mut r) => {
                let ghost r0 = r;
                let s2 = r.resume(ev);
                self.stage = StartStage::Running(r);
                assert(r0.next(ev, r, s2));
                s2
            },
            StartStage::Finished => unexpected(),
        }
    }
}

// ---------------------------------------------------------------------------
// start_and_delegate

pub enum DelegateStage {
    Starting(StartAgent),
    /// The startup delay after the agent command started.
    Settling(HerdrAgent),
    Waiting(HerdrAgent, WaitAgent),
    Sending(HerdrAgent),
    Finished,
}

/// Start a new agent, give it `startup_delay_ms`, wait up to `wait_ready_ms`
/// until it is detected and idle (no wait when zero), then hand it the
/// prompt. A readiness failure aborts: the prompt is never sent blind.
pub struct Delegation {
    pub text: String,
    pub submit: bool,
    pub startup_delay_ms: u64,
    pub wait_ready_ms: u64,
    pub stage: DelegateStage,
}

pub open spec fn not_sent(pane_id: Seq<char>, reason: Seq<char>) -> Seq<char> {
    "agent "@ + pane_id + " not ready; prompt not sent: "@ + reason
}

impl Delegation {
    pub open spec fn same_request(self, other: Delegation) -> bool {
        &&& other.text == self.text
        &&& other.submit == self.submit
        &&& other.startup_delay_ms == self.startup_delay_ms
        &&& other.wait_ready_ms == self.wait_ready_ms
    }

    /// With `agent` running: wait for it when there is a budget, else send.
    pub open spec fn begins_wait(self, agent: HerdrAgent, now_ns: u64, new: Delegation, s: Step<
        HerdrAgent,
    >) -> bool {
        &&& self.wait_ready_ms > 0 ==> (new.stage matches DelegateStage::Waiting(g, w) && g == agent
            && wait_started(agent.target@, "idle"@, self.wait_ready_ms, now_ns, w, s))
        &&& self.wait_ready_ms == 0 ==> is_run(s) && args_of(s) == send_args(
            agent,
            self.text@,
            self.submit,
        ) && new.stage == DelegateStage::Sending(agent)
    }

    pub open spec fn after_start(
        self,
        a2: StartAgent,
        s2: Step<HerdrAgent>,
        now_ns: u64,
        new: Delegation,
        s: Step<HerdrAgent>,
    ) -> bool {
        match s2 {
            Step::Done(Ok(agent)) => {
                &&& self.startup_delay_ms > 0 ==> s == Step::<HerdrAgent>::SleepMs(
                    self.startup_delay_ms,
                ) && new.stage == DelegateStage::Settling(agent)
                &&& self.startup_delay_ms == 0 ==> self.begins_wait(agent, now_ns, new, s)
            },
            _ => relays(s2, s) && new.stage == DelegateStage::Starting(a2),
        }
    }

    pub open spec fn after_wait(
        self,
        agent: HerdrAgent,
        w2: WaitAgent,
        s2: Step<()>,
        new: Delegation,
        s: Step<HerdrAgent>,
    ) -> bool {
        match s2 {
            Step::Done(Ok(_)) => is_run(s) && args_of(s) == send_args(agent, self.text@, self.submit)
                && new.stage == DelegateStage::Sending(agent),
            Step::Done(Err(e)) => is_failure(s) && err_of(s) == not_sent(agent.pane_id@, e@)
                && new.stage is Finished,
            _ => relays(s2, s) && new.stage == DelegateStage::Waiting(agent, w2),
        }
    }

    /// One transition of `start_and_delegate`, at `now_ns`.
    pub open spec fn next(self, ev: Event, now_ns: u64, new: Delegation, s: Step<HerdrAgent>) -> bool {
        &&& self.same_request(new)
        &&& match self.stage {
            DelegateStage::Starting(a) => exists|a2: StartAgent, s2: Step<HerdrAgent>|
                #[trigger] a.next(ev, a2, s2) && self.after_start(a2, s2, now_ns, new, s),
            DelegateStage::Settling(agent) => {
                &&& ev is Slept ==> self.begins_wait(agent, now_ns, new, s)
                &&& ev is Ran ==> is_failure(s) && err_of(s) == out_of_order() && new.stage is Finished
            },
            DelegateStage::Waiting(agent, w) => exists|w2: WaitAgent, s2: Step<()>|
                #[trigger] w.next(ev, now_ns, w2, s2) && self.after_wait(agent, w2, s2, new, s),
            DelegateStage::Sending(agent) => {
                &&& ran_ok(ev) ==> s == Step::<HerdrAgent>::Done(Ok(agent))
                &&& ran_err(ev) ==> is_failure(s) && err_of(s) == err_message(ev)
                &&& ev is Slept ==> is_failure(s) && err_of(s) == out_of_order()
                &&& new.stage is Finished
            },
            DelegateStage::Finished => is_failure(s) && err_of(s) == out_of_order() && new.stage is Finished,
        }
    }

    fn begin_wait(&mut self, agent: HerdrAgent, now_ns: u64) -> (s: Step<HerdrAgent>)
        ensures
            old(self).same_request(*final(self)),
            old(self).begins_wait(agent, now_ns, *final(self), s),
    {
        if self.wait_ready_ms > 0 {
            let (w, st) = wait_agent_status(agent.target.as_str(), "idle", self.wait_ready_ms, now_ns);
            self.stage = DelegateStage::Waiting(agent, w);
            relay(st)
        } else {
            let args = send_to_agent(&agent, self.text.as_str(), self.submit, 0);
            self.stage = DelegateStage::Sending(agent);
            Step::Run(args)
        }
    }

    /// Continue after `ev`, at `now_ns`.
    pub fn resume(&mut self, ev: Event, now_ns: u64) -> (s: Step<HerdrAgent>)
        ensures
            old(self).next(ev, now_ns, *final(self), s),
    {
        let ghost before = *self;
        let mut stage = DelegateStage::Finished;
        std::mem::swap(&mut stage, &mut self.stage);
        match stage {
            DelegateStage::Starting(mut a) => {
                let ghost a0 = a;
                let s2 = a.resume(ev);
                let ghost g2 = s2;
                match s2 {
                    Step::Done(Ok(agent)) => {
                        if self.startup_delay_ms > 0 {
                            self.stage = DelegateStage::Settling(agent);
                            let s = Step::SleepMs(self.startup_delay_ms);
                            assert(a0.next(ev, a, g2) && before.after_start(a, g2, now_ns, *self, s));
                            s
                        } else {
                            let s = self.begin_wait(agent, now_ns);
                            assert(a0.next(ev, a, g2) && before.after_start(a, g2, now_ns, *self, s));
                            s
                        }
                    },
                    other => {
                        let s: Step<HerdrAgent> = relay(other);
                        self.stage = DelegateStage::Starting(a);
                        assert(a0.next(ev, a, g2) && before.after_start(a, g2, now_ns, *self, s));
                        s
                    },
                }
            },
            DelegateStage::Settling(agent) => match ev {
                Event::Slept => self.begin_wait(agent, now_ns),
                Event::Ran(_) => unexpected(),
            },
            DelegateStage::Waiting(agent, mut w) => {
                let ghost w0 = w;
                let s2 = w.resume(ev, now_ns);
                let ghost g2 = s2;
                match s2 {
                    Step::Done(Ok(_)) => {
                        let args = send_to_agent(&agent, self.text.as_str(), self.submit, 0);
                        self.stage = DelegateStage::Sending(agent);
                        let s = Step::Run(args);
                        assert(w0.next(ev, now_ns, w, g2) && before.after_wait(agent, w, g2, *self, s));
                        s
                    },
                    Step::Done(Err(e)) => {
                        let mut m = chars_of("agent ");
                        push_string(&mut m, &agent.pane_id);
                        push_str(&mut m, " not ready; prompt not sent: ");
                        push_string(&mut m, &e);
                        let s = Step::Done(Err(string_of(&m)));
                        assert(w0.next(ev, now_ns, w, g2) && before.after_wait(agent, w, g2, *self, s));
                        s
                    },
                    other => {
                        let s: Step<HerdrAgent> = relay(other);
                        self.stage = DelegateStage::Waiting(agent, w);
                        assert(w0.next(ev, now_ns, w, g2) && before.after_wait(agent, w, g2, *self, s));
                        s
                    },
                }
            },
            DelegateStage::Sending(agent) => match ev {
                Event::Ran(Ok(_)) => Step::Done(Ok(agent)),
                Event::Ran(Err(e)) => Step::Done(Err(e.message)),
                Event::Slept => unexpected(),
            },
            DelegateStage::Finished => unexpected(),
        }
    }
}

/// Start an agent as `start_agent` does, then deliver `text` to it.
/// `submit_delay_ms` is kept for compatibility and unused.
pub fn start_and_delegate(
    opts: &StartAgentOpts,
    own_pane: &str,
    text: &str,
    submit: bool,
    submit_delay_ms: u64,
    startup_delay_ms: u64,
    wait_ready_ms: u64,
) -> (r: (Delegation, Step<HerdrAgent>))
    ensures
        r.0.text@ == text@,
        r.0.submit == submit,
        r.0.startup_delay_ms == startup_delay_ms,
        r.0.wait_ready_ms == wait_ready_ms,
        r.0.stage matches DelegateStage::Starting(a) && agent_start(*opts, own_pane@, a, r.1),
{
    let (a, s) = start_agent(opts, own_pane);
    let d = Delegation {
        text: owned(text),
        submit,
        startup_delay_ms,
        wait_ready_ms,
        stage: DelegateStage::Starting(a),
    };
    (d, relay(s))
}

/// Law: the prompt is delivered by one command and never retried through
/// raw input. When that command fails, the delegation ends with its error,
/// and whatever comes after asks for no further command.
pub proof fn lemma_failed_delivery_is_final(
    d: Delegation,
    ev: Event,
    now_ns: u64,
    d2: Delegation,
    s: Step<HerdrAgent>,
    ev2: Event,
    now2_ns: u64,
    d3: Delegation,
    s2: Step<HerdrAgent>,
)
    requires
        d.stage is Sending,
        ran_err(ev),
        d.next(ev, now_ns, d2, s),
        d2.next(ev2, now2_ns, d3, s2),
    ensures
        is_failure(s),
        err_of(s) == err_message(ev),
        d2.stage is Finished,
        is_failure(s2),
        !is_run(s2),
{
}

// ---------------------------------------------------------------------------
// list_projects

pub enum ListPhase {
    Listing,
    /// Asking `worktree list --workspace` for the repo of `workspaces[probing]`.
    Probing,
    Finished,
}

/// Source repositories herdr has open, current one first (see
/// `projects_from_workspaces`). `workspace list` reports `"worktree": null`
/// for some git workspaces; `worktree list --workspace` still knows their
/// repo, so each such workspace is probed in turn. Non-git workspaces fail the
/// probe and stay without a repo. "Current" is the workspace hosting this pane
/// (`$HERDR_WORKSPACE_ID`), or else the focused one.
pub struct ListProjects {
    pub env_workspace: String,
    pub workspaces: Vec<HerdrWorkspace>,
    pub probing: usize,
    pub phase: ListPhase,
}

pub open spec fn views_of(ws: Seq<HerdrWorkspace>) -> Seq<WorkspaceView> {
    ws.map_values(|w: HerdrWorkspace| workspace_view(w))
}

/// The first workspace from `from` on without a repo (`ws.len()` if none).
pub open spec fn next_unknown(ws: Seq<WorkspaceView>, from: int) -> int
    decreases ws.len() - from,
{
    if from >= ws.len() {
        ws.len() as int
    } else if ws[from].repo is None {
        from
    } else {
        next_unknown(ws, from + 1)
    }
}

/// The id of the first focused workspace.
pub open spec fn first_focused(ws: Seq<WorkspaceView>) -> Option<Seq<char>>
    decreases ws.len(),
{
    if ws.len() == 0 {
        None
    } else if ws[0].focused {
        Some(ws[0].id)
    } else {
        first_focused(ws.drop_first())
    }
}

pub open spec fn current_of(env: Seq<char>, ws: Seq<WorkspaceView>) -> Seq<char> {
    if env.len() > 0 {
        env
    } else {
        match first_focused(ws) {
            Some(id) => id,
            None => Seq::empty(),
        }
    }
}

pub open spec fn projects_for(ws: Seq<WorkspaceView>, current: Seq<char>) -> Seq<
    (Seq<char>, Seq<char>, Seq<char>, nat, bool),
> {
    sort_entries(fold_projects(ws, current)).map_values(|e: ProjectEntry| entry_project_view(e))
}

pub open spec fn probe_args(workspace_id: Seq<char>) -> Seq<Seq<char>> {
    seq!["worktree"@, "list"@, "--workspace"@, workspace_id]
}

/// With the workspaces settled before `from`: probe the next one without a
/// repo, or finish with the projects.
pub open spec fn probes_from(new: ListProjects, from: int, s: Step<Vec<RepoProject>>) -> bool {
    let wv = views_of(new.workspaces@);
    let i = next_unknown(wv, from);
    &&& i < wv.len() ==> is_run(s) && args_of(s) == probe_args(wv[i].id) && new.probing == i
        && new.phase is Probing
    &&& i >= wv.len() ==> (s matches Step::Done(Ok(ps)) && ps@.map_values(
        |p: RepoProject| project_entry_view(p),
    ) == projects_for(wv, current_of(new.env_workspace@, wv))) && new.phase is Finished
}

/// `w` with its repo as a `worktree list --workspace` answer `ev` gives it.
pub open spec fn probed(w: WorkspaceView, ev: Event) -> WorkspaceView {
    WorkspaceView {
        repo: match result_of(ev) {
            Some(r) => repo_of_listing(r, w.id),
            None => None,
        },
        ..w
    }
}

pub fn list_projects_command() -> (r: Vec<String>)
    ensures
        views(r@) == seq!["workspace"@, "list"@],
{
    list_workspaces_command()
}

pub fn list_projects(env_workspace_id: &str) -> (r: (ListProjects, Step<Vec<RepoProject>>))
    ensures
        r.0.env_workspace@ == env_workspace_id@,
        r.0.phase is Listing,
        is_run(r.1),
        args_of(r.1) == seq!["workspace"@, "list"@],
{
    let l = ListProjects {
        env_workspace: owned(env_workspace_id),
        workspaces: Vec::new(),
        probing: 0,
        phase: ListPhase::Listing,
    };
    (l, Step::Run(list_workspaces_command()))
}

fn current_workspace(env: &String, ws: &Vec<HerdrWorkspace>) -> (r: String)
    ensures
        r@ == current_of(env@, views_of(ws@)),
{
    if chars_of(env.as_str()).len() > 0 {
        return env.clone();
    }
    let ghost wv = views_of(ws@);
    let mut i: usize = 0;
    assert(wv.skip(0) =~= wv);
    while i < ws.len()
        invariant
            i <= ws.len(),
            env@.len() == 0,
            wv == views_of(ws@),
            first_focused(wv) == first_focused(wv.skip(i as int)),
        decreases ws.len() - i,
    {
        assert(wv.skip(i as int)[0] == wv[i as int]);
        assert(wv[i as int] == workspace_view(ws@[i as int]));
        if ws[i].focused {
            return ws[i].id.clone();
        }
        assert(wv.skip(i as int).drop_first() =~= wv.skip(i + 1));
        i += 1;
    }
    String::new()
}

impl ListProjects {
    /// One transition of `list_projects`.
    pub open spec fn next(self, ev: Event, new: ListProjects, s: Step<Vec<RepoProject>>) -> bool {
        let wv = views_of(self.workspaces@);
        &&& new.env_workspace == self.env_workspace
        &&& match self.phase {
            ListPhase::Listing => {
                &&& ran_ok(ev) ==> views_of(new.workspaces@) == workspaces_in(
                    items_at(answer(ev), "result"@, "workspaces"@),
                ) && probes_from(new, 0, s)
                &&& ran_err(ev) ==> is_failure(s) && err_of(s) == err_message(ev) && new.phase is Finished
                &&& ev is Slept ==> is_failure(s) && err_of(s) == out_of_order() && new.phase is Finished
            },
            ListPhase::Probing => {
                let i = self.probing as int;
                &&& i < wv.len() && ran_ok(ev) ==> views_of(new.workspaces@) == wv.update(
                    i,
                    probed(wv[i], ev),
                ) && probes_from(new, i + 1, s)
                // a failed probe leaves the workspace without a repo
                &&& i < wv.len() && ran_err(ev) ==> views_of(new.workspaces@) == wv && probes_from(
                    new,
                    i + 1,
                    s,
                )
                &&& i >= wv.len() || ev is Slept ==> is_failure(s) && err_of(s) == out_of_order()
                    && new.phase is Finished
            },
            ListPhase::Finished => is_failure(s) && err_of(s) == out_of_order() && new.phase is Finished,
        }
    }

    fn probe_from(&mut self, from: usize) -> (s: Step<Vec<RepoProject>>)
        requires
            from <= old(self).workspaces.len(),
        ensures
            final(self).env_workspace == old(self).env_workspace,
            final(self).workspaces == old(self).workspaces,
            probes_from(*final(self), from as int, s),
    {
        let ghost wv = views_of(self.workspaces@);
        let mut i: usize = from;
        while i < self.workspaces.len()
            invariant
                from <= i <= self.workspaces.len(),
                self.env_workspace == old(self).env_workspace,
                self.workspaces == old(self).workspaces,
                wv == views_of(self.workspaces@),
                next_unknown(wv, from as int) == next_unknown(wv, i as int),
            decreases self.workspaces.len() - i,
        {
            if self.workspaces[i].repo.is_none() {
                self.probing = i;
                self.phase = ListPhase::Probing;
                let mut args: Vec<String> = Vec::new();
                args.push(arg("worktree"));
                args.push(arg("list"));
                args.push(arg("--workspace"));
                args.push(self.workspaces[i].id.clone());
                assert(views(args@) =~= probe_args(wv[i as int].id));
                return Step::Run(args);
            }
            i += 1;
        }
        self.phase = ListPhase::Finished;
        let current = current_workspace(&self.env_workspace, &self.workspaces);
        Step::Done(Ok(projects_from_workspaces(&self.workspaces, current.as_str())))
    }

    /// Continue after `ev`.
    pub fn resume(&mut self, ev: Event) -> (s: Step<Vec<RepoProject>>)
        ensures
            old(self).next(ev, *final(self), s),
    {
        match self.phase {
            ListPhase::Listing => match ev {
                Event::Ran(Ok(v)) => {
                    self.workspaces = workspaces_from(&v);
                    self.probe_from(0)
                },
                Event::Ran(Err(e)) => {
                    self.phase = ListPhase::Finished;
                    Step::Done(Err(e.message))
                },
                Event::Slept => {
                    self.phase = ListPhase::Finished;
                    unexpected()
                },
            },
            ListPhase::Probing => {
                let i = self.probing;
                if i >= self.workspaces.len() {
                    self.phase = ListPhase::Finished;
                    return unexpected();
                }
                match ev {
                    Event::Ran(Ok(v)) => {
                        let ghost wv = views_of(self.workspaces@);
                        let mut w = self.workspaces.remove(i);
                        let repo = match v.get("result") {
                            Some(result) => repo_from_worktree_list(result, w.id.as_str()),
                            None => None,
                        };
                        w.repo = repo;
                        self.workspaces.insert(i, w);
                        assert(views_of(self.workspaces@) =~= wv.update(i as int, probed(wv[i as int], ev)));
                        self.probe_from(i + 1)
                    },
                    Event::Ran(Err(_)) => self.probe_from(i + 1),
                    Event::Slept => {
                        self.phase = ListPhase::Finished;
                        unexpected()
                    },
                }
            },
            ListPhase::Finished => unexpected(),
        }
    }
}

} // verus!

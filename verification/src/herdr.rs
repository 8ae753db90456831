//! The herdr CLI as the plugin sees it: the values it answers with, how an
//! answer (exit status, stdout, stderr) becomes a result or an error, and
//! what each listing command's JSON turns into.

use vstd::prelude::*;
use crate::json::{
    Json, JsonKind, array_of, as_array, as_bool, as_spec, as_str, as_u64, at, bool_of, field,
    field_of, is_null, is_object, null_of, object_of, opt_view, parse_json, parsed_as, str_of, text,
    text_of,
    u64_of,
};
use crate::naming::{dir_name, path_file_name};
use crate::text::{
    append, chars_of, join_seqs, owned, push_str, push_string, string_of, trim_vec, trim_ws,
    views,
};

verus! {

#[derive(Debug, Clone)]
pub struct HerdrAgent {
    /// Pane id: terminal ids are not valid `agent *` targets on herdr 0.8+.
    pub target: String,
    pub label: String,
    pub status: String,
    pub cwd: String,
    pub pane_id: String,
}

/// How to place a newly started agent pane.
#[derive(Debug, Clone)]
pub struct StartAgentOpts {
    pub name: String,
    pub cwd: String,
    pub argv: Vec<String>,
    /// "tab" | "right" | "down".
    pub placement: String,
    pub focus: bool,
    /// Workspace for tab/split placement; required there. Ignored (may be
    /// empty) when `worktree` is Some.
    pub workspace_id: String,
    /// Optional label for a newly created tab (usually the issue key).
    pub tab_label: String,
    /// Some = run the agent in a git worktree of `cwd` (the repo dir); `placement` is ignored.
    pub worktree: Option<WorktreeOpts>,
}

/// How to open or create the git worktree a new agent runs in.
#[derive(Debug, Clone)]
pub struct WorktreeOpts {
    /// Branch name; already rendered and sanitized, non-empty.
    pub branch: String,
    /// Base ref for a new branch; empty = omit `--base` (herdr default).
    pub base: String,
    /// Checkout path, already expanded; empty = omit `--path` (herdr default).
    pub path: String,
    /// Workspace label; empty = omit `--label`.
    pub label: String,
    /// Append `--trust-repository` to both `worktree open` and `worktree create`.
    pub trust_repository: bool,
}

/// A worktree workspace returned by `herdr worktree open|create`.
#[derive(Debug, Clone)]
pub struct OpenedWorktree {
    pub workspace_id: String,
    /// Root pane of the worktree workspace.
    pub pane_id: String,
    pub checkout_path: String,
    /// The workspace was already open; its root pane may be running an agent.
    pub already_open: bool,
}

#[derive(Debug, Clone)]
pub struct HerdrWorkspace {
    pub id: String,
    pub label: String,
    pub number: u64,
    pub focused: bool,
    pub tab_count: u64,
    pub pane_count: u64,
    pub agent_status: String,
    /// Git checkout of the workspace; None for non-git workspaces.
    pub repo: Option<WorkspaceRepo>,
}

/// The `worktree` object of a `workspace list` entry.
#[derive(Debug, Clone)]
pub struct WorkspaceRepo {
    /// Shared by the source checkout and all its linked worktrees (`…/.git`).
    pub repo_key: String,
    pub repo_name: String,
    /// Source checkout root, also for linked worktrees.
    pub repo_root: String,
    pub checkout_path: String,
    pub is_linked_worktree: bool,
}

/// A source repository ("project") herdr has open in at least one workspace.
#[derive(Debug, Clone)]
pub struct RepoProject {
    pub name: String,
    /// Source checkout root; the `--cwd` for `herdr worktree` commands.
    pub root: String,
    pub repo_key: String,
    /// Workspaces open on linked worktrees of this repo.
    pub open_worktrees: usize,
    /// The workspace hosting this Jira pane belongs to this repo.
    pub current: bool,
}

/// One checkout from `herdr worktree list`.
#[derive(Debug, Clone)]
pub struct RepoWorktree {
    pub branch: String,
    pub path: String,
    /// A herdr workspace is open on it.
    pub open: bool,
    /// The source checkout, not a linked worktree.
    pub is_main: bool,
}

/// Result of creating a tab: the tab id plus its single root shell pane.
#[derive(Debug, Clone)]
pub struct CreatedTab {
    pub tab_id: String,
    pub pane_id: String,
}

/// A failed herdr call: the API error code when herdr gave one.
#[derive(Debug)]
pub struct CliError {
    pub code: Option<String>,
    pub message: String,
}

/// What running the CLI gave: exit status and the output decoded (lossily)
/// as UTF-8; or, when the process could not start, the reason.
pub enum CliOutput {
    Exited { success: bool, stdout: String, stderr: String },
    NotStarted(String),
}

// ---------------------------------------------------------------------------
// responses

/// A JSON `null`.
pub fn json_null() -> (j: Json)
    ensures
        j.kind is Null,
        j.text@ == "null"@,
{
    Json { kind: JsonKind::Null, text: owned("null") }
}

/// The command named in messages: its first two arguments (never the rest,
/// which may hold the whole Jira prompt).
pub open spec fn command_of(args: Seq<Seq<char>>) -> Seq<char> {
    join_seqs(args.take(if args.len() < 2 { args.len() as int } else { 2 }), " "@)
}

/// A call's outcome as plain values: the answer, or an error code and message.
pub enum Outcome {
    Value(Json),
    /// The `null` that stands for an empty stdout.
    Null,
    Failed(Option<Seq<char>>, Seq<char>),
}

pub open spec fn outcome_of(r: Result<Json, CliError>) -> Outcome {
    match r {
        Ok(j) => Outcome::Value(j),
        Err(e) => Outcome::Failed(opt_view(e.code), e.message@),
    }
}

/// The API error in a parsed output, if any: its `error` member when that is
/// not null.
pub open spec fn api_error_in(o: Option<Json>) -> Option<Json> {
    match o {
        Some(j) => if null_of(field(j, "error"@)) {
            None
        } else {
            field(j, "error"@)
        },
        None => None,
    }
}

pub open spec fn ok_of(p: Result<Json, String>) -> Option<Json> {
    match p {
        Ok(j) => Some(j),
        Err(_) => None,
    }
}

/// How one CLI answer is read, given what stdout and the trimmed stderr parse
/// to: an API error (stdout first, then stderr) wins, even on success; then a
/// failed exit; then empty stdout is `null`; else the parsed stdout, or a
/// "bad JSON" error.
pub open spec fn response(
    args: Seq<Seq<char>>,
    success: bool,
    stdout: Seq<char>,
    stderr: Seq<char>,
    parsed: Result<Json, String>,
    stderr_json: Option<Json>,
) -> Outcome {
    let command = command_of(args);
    let err = if api_error_in(ok_of(parsed)) is Some {
        api_error_in(ok_of(parsed))
    } else {
        api_error_in(stderr_json)
    };
    if err is Some {
        Outcome::Failed(
            str_of(field(err->0, "code"@)),
            "herdr "@ + command + " failed: "@ + err->0.text@,
        )
    } else if !success {
        let detail = if trim_ws(stderr).len() == 0 {
            stdout
        } else {
            stderr
        };
        Outcome::Failed(None, "herdr "@ + command + " failed: "@ + trim_ws(detail))
    } else if trim_ws(stdout).len() == 0 {
        Outcome::Null
    } else {
        match parsed {
            Ok(j) => Outcome::Value(j),
            Err(e) => Outcome::Failed(None, "herdr "@ + command + ": bad JSON: "@ + e@),
        }
    }
}

/// `outcome` is `expected`, a `null` answer compared by kind and rendering.
pub open spec fn same_outcome(outcome: Outcome, expected: Outcome) -> bool {
    match (outcome, expected) {
        (Outcome::Value(a), Outcome::Null) => a.kind is Null && a.text@ == "null"@,
        _ => outcome == expected,
    }
}

fn command_text(args: &Vec<String>) -> (r: Vec<char>)
    ensures
        r@ == command_of(views(args@)),
{
    let n: usize = if args.len() < 2 {
        args.len()
    } else {
        2
    };
    let mut out: Vec<char> = Vec::new();
    let mut i: usize = 0;
    let ghost vs = views(args@);
    while i < n
        invariant
            n <= args.len(),
            i <= n,
            vs == views(args@),
            out@ == join_seqs(vs.take(n as int).take(i as int), " "@),
        decreases n - i,
    {
        if i > 0 {
            push_str(&mut out, " ");
        }
        push_string(&mut out, &args[i]);
        assert(vs.take(n as int).take(i + 1).drop_last() =~= vs.take(n as int).take(i as int));
        i += 1;
    }
    assert(vs.take(n as int).take(n as int) =~= vs.take(n as int));
    out
}

fn api_error<'a>(o: Option<&'a Json>) -> (r: Option<&'a Json>)
    ensures
        as_spec(r) == api_error_in(as_spec(o)),
{
    match o {
        Some(j) => {
            let e = j.get("error");
            if is_null(e) {
                None
            } else {
                e
            }
        },
        None => None,
    }
}

/// Read one CLI answer, the two parses given (see [`response`]).
pub fn parse_response_with(
    args: &Vec<String>,
    success: bool,
    stdout: &str,
    stderr: &str,
    parsed: Result<Json, String>,
    stderr_json: Option<Json>,
) -> (r: Result<Json, CliError>)
    ensures
        same_outcome(
            outcome_of(r),
            response(views(args@), success, stdout@, stderr@, parsed, stderr_json),
        ),
{
    let command = command_text(args);
    let from_stdout = match &parsed {
        Ok(j) => api_error(Some(j)),
        Err(_) => None,
    };
    let err = if from_stdout.is_some() {
        from_stdout
    } else {
        match &stderr_json {
            Some(j) => api_error(Some(j)),
            None => None,
        }
    };
    if let Some(e) = err {
        let code = as_str(e.get("code"));
        let mut m = chars_of("herdr ");
        append(&mut m, &command);
        push_str(&mut m, " failed: ");
        push_string(&mut m, &e.text);
        return Err(CliError { code, message: string_of(&m) });
    }
    if !success {
        let se = trim_vec(&chars_of(stderr));
        let detail = if se.len() == 0 {
            trim_vec(&chars_of(stdout))
        } else {
            se
        };
        let mut m = chars_of("herdr ");
        append(&mut m, &command);
        push_str(&mut m, " failed: ");
        append(&mut m, &detail);
        return Err(CliError { code: None, message: string_of(&m) });
    }
    if trim_vec(&chars_of(stdout)).len() == 0 {
        return Ok(json_null());
    }
    match parsed {
        Ok(j) => Ok(j),
        Err(e) => {
            let mut m = chars_of("herdr ");
            append(&mut m, &command);
            push_str(&mut m, ": bad JSON: ");
            push_string(&mut m, &e);
            Err(CliError { code: None, message: string_of(&m) })
        },
    }
}

/// Read one CLI answer: stdout and the trimmed stderr are parsed as JSON and
/// the answer is what [`response`] makes of those parses.
pub fn parse_response(args: &Vec<String>, success: bool, stdout: &str, stderr: &str) -> (r: Result<
    Json,
    CliError,
>)
    ensures
        exists|parsed: Result<Json, String>, stderr_parsed: Result<Json, String>|
            parsed_as(stdout@, parsed) && parsed_as(trim_ws(stderr@), stderr_parsed) && same_outcome(
                outcome_of(r),
                response(views(args@), success, stdout@, stderr@, parsed, ok_json(stderr_parsed)),
            ),
{
    let parsed = parse_json(stdout);
    let trimmed = string_of(&trim_vec(&chars_of(stderr)));
    let stderr_parsed = parse_json(trimmed.as_str());
    let ghost p = parsed;
    let ghost q = stderr_parsed;
    let stderr_json = match stderr_parsed {
        Ok(j) => Some(j),
        Err(_) => None,
    };
    let r = parse_response_with(args, success, stdout, stderr, parsed, stderr_json);
    assert(parsed_as(stdout@, p) && parsed_as(trim_ws(stderr@), q) && same_outcome(
        outcome_of(r),
        response(views(args@), success, stdout@, stderr@, p, ok_json(q)),
    ));
    r
}

/// The tree of a successful parse.
pub open spec fn ok_json(r: Result<Json, String>) -> Option<Json> {
    match r {
        Ok(j) => Some(j),
        Err(_) => None,
    }
}

/// What a CLI run means: the process's answer read by [`parse_response`], or
/// "failed to run herdr" when it did not start.
pub fn read_output(args: &Vec<String>, out: CliOutput) -> (r: Result<Json, CliError>)
    ensures
        out is NotStarted ==> r is Err && r->Err_0.code is None && r->Err_0.message@
            == "failed to run herdr: "@ + out->NotStarted_0@,
        out is Exited ==> exists|parsed: Result<Json, String>, stderr_parsed: Result<Json, String>|
            parsed_as(out->stdout@, parsed) && parsed_as(trim_ws(out->stderr@), stderr_parsed)
                && same_outcome(
                outcome_of(r),
                response(
                    views(args@),
                    out->success,
                    out->stdout@,
                    out->stderr@,
                    parsed,
                    ok_json(stderr_parsed),
                ),
            ),
{
    match out {
        CliOutput::NotStarted(reason) => {
            let mut m = chars_of("failed to run herdr: ");
            push_string(&mut m, &reason);
            Err(CliError { code: None, message: string_of(&m) })
        },
        CliOutput::Exited { success, stdout, stderr } => parse_response(
            args,
            success,
            stdout.as_str(),
            stderr.as_str(),
        ),
    }
}

} // verus!

verus! {

// ---------------------------------------------------------------------------
// listings

/// `o.as_str().unwrap_or(d)`.
pub open spec fn str_or(o: Option<Json>, d: Seq<char>) -> Seq<char> {
    match str_of(o) {
        Some(s) => s,
        None => d,
    }
}

fn text_or(o: Option<&Json>, d: &str) -> (r: String)
    ensures
        r@ == str_or(as_spec(o), d@),
{
    match as_str(o) {
        Some(s) => s,
        None => owned(d),
    }
}

fn text_or_empty(o: Option<&Json>) -> (r: String)
    ensures
        r@ == str_or(as_spec(o), Seq::empty()),
{
    match as_str(o) {
        Some(s) => s,
        None => String::new(),
    }
}

/// An agent as plain values.
pub struct AgentView {
    pub target: Seq<char>,
    pub label: Seq<char>,
    pub status: Seq<char>,
    pub cwd: Seq<char>,
    pub pane_id: Seq<char>,
}

pub open spec fn agent_view(h: HerdrAgent) -> AgentView {
    AgentView {
        target: h.target@,
        label: h.label@,
        status: h.status@,
        cwd: h.cwd@,
        pane_id: h.pane_id@,
    }
}

/// One `agent list` entry: skipped without a pane id, for our own pane, with
/// no detected agent (no label) or with status "unknown".
pub open spec fn agent_entry(a: Json, own_pane: Seq<char>) -> Option<AgentView> {
    let pane = str_or(field(a, "pane_id"@), Seq::empty());
    let label = if str_of(field(a, "display_agent"@)) is Some {
        str_of(field(a, "display_agent"@))
    } else {
        str_of(field(a, "agent"@))
    };
    let status = str_or(field(a, "agent_status"@), "unknown"@);
    if pane.len() == 0 || pane == own_pane || label is None || status == "unknown"@ {
        None
    } else {
        Some(
            AgentView {
                target: pane,
                label: label->0,
                status,
                cwd: str_or(field(a, "cwd"@), Seq::empty()),
                pane_id: pane,
            },
        )
    }
}

pub fn parse_agent(a: &Json, own_pane: &str) -> (r: Option<HerdrAgent>)
    ensures
        match r {
            Some(h) => agent_entry(*a, own_pane@) == Some(agent_view(h)),
            None => agent_entry(*a, own_pane@) is None,
        },
{
    let pane_id = text_or_empty(a.get("pane_id"));
    let pv = chars_of(pane_id.as_str());
    if pv.len() == 0 || crate::branch::vec_equal(&pv, &chars_of(own_pane)) {
        return None;
    }
    let label = match as_str(a.get("display_agent")) {
        Some(l) => l,
        None => match as_str(a.get("agent")) {
            Some(l) => l,
            None => {
                return None;
            },
        },
    };
    let status = text_or(a.get("agent_status"), "unknown");
    if crate::branch::vec_equal(&chars_of(status.as_str()), &chars_of("unknown")) {
        return None;
    }
    Some(
        HerdrAgent {
            target: pane_id.clone(),
            label,
            status,
            cwd: text_or_empty(a.get("cwd")),
            pane_id,
        },
    )
}

/// The delegable agents of an `agent list` answer, in order.
pub open spec fn agents_in(items: Seq<Json>, own_pane: Seq<char>) -> Seq<AgentView>
    decreases items.len(),
{
    if items.len() == 0 {
        Seq::empty()
    } else {
        let r = agents_in(items.drop_last(), own_pane);
        match agent_entry(items.last(), own_pane) {
            Some(a) => r.push(a),
            None => r,
        }
    }
}

pub open spec fn items_at(v: Json, k1: Seq<char>, k2: Seq<char>) -> Seq<Json> {
    match array_of(field_of(field(v, k1), k2)) {
        Some(a) => a,
        None => Seq::empty(),
    }
}

/// Law: an agent read from an `agent list` entry is addressed by the entry's
/// pane id, which is a non-empty string other than our own pane; its cwd is
/// the entry's "cwd" string (empty without one), its status the entry's
/// "agent_status", and its label the entry's "display_agent", else "agent".
pub proof fn lemma_agent_entry_fields(a: Json, own_pane: Seq<char>)
    ensures
        agent_entry(a, own_pane) matches Some(v) ==> {
            &&& str_of(field(a, "pane_id"@)) == Some(v.pane_id)
            &&& v.target == v.pane_id
            &&& v.pane_id.len() > 0
            &&& v.pane_id != own_pane
            &&& (str_of(field(a, "cwd"@)) matches Some(c) ==> v.cwd == c)
            &&& (str_of(field(a, "cwd"@)) is None ==> v.cwd.len() == 0)
            &&& str_of(field(a, "agent_status"@)) == Some(v.status)
            &&& v.status != "unknown"@
            &&& (str_of(field(a, "display_agent"@)) matches Some(d) ==> v.label == d)
            &&& (str_of(field(a, "display_agent"@)) is None ==> str_of(field(a, "agent"@)) == Some(
                v.label,
            ))
        },
        str_of(field(a, "pane_id"@)) is None ==> agent_entry(a, own_pane) is None,
        str_of(field(a, "pane_id"@)) == Some(Seq::<char>::empty()) ==> agent_entry(a, own_pane) is None,
        str_of(field(a, "pane_id"@)) == Some(own_pane) ==> agent_entry(a, own_pane) is None,
        str_of(field(a, "display_agent"@)) is None && str_of(field(a, "agent"@)) is None
            ==> agent_entry(a, own_pane) is None,
        str_of(field(a, "agent_status"@)) is None ==> agent_entry(a, own_pane) is None,
        str_of(field(a, "agent_status"@)) == Some("unknown"@) ==> agent_entry(a, own_pane) is None,
        ({
            &&& str_of(field(a, "pane_id"@)) is Some
            &&& str_of(field(a, "pane_id"@))->0.len() > 0
            &&& str_of(field(a, "pane_id"@))->0 != own_pane
            &&& str_of(field(a, "display_agent"@)) is Some || str_of(field(a, "agent"@)) is Some
            &&& str_of(field(a, "agent_status"@)) is Some
            &&& str_of(field(a, "agent_status"@))->0 != "unknown"@
        }) ==> agent_entry(a, own_pane) is Some,
{
    if str_of(field(a, "pane_id"@)) is None {
        assert(str_or(field(a, "pane_id"@), Seq::empty()).len() == 0);
    }
}

/// Every agent read from `items` is the reading of one of the items.
proof fn lemma_agents_from_items(items: Seq<Json>, own_pane: Seq<char>)
    ensures
        forall|k: int|
            0 <= k < agents_in(items, own_pane).len() ==> exists|j: int|
                0 <= j < items.len() && agent_entry(#[trigger] items[j], own_pane) == Some(
                    #[trigger] agents_in(items, own_pane)[k],
                ),
    decreases items.len(),
{
    if items.len() > 0 {
        let d = items.drop_last();
        lemma_agents_from_items(d, own_pane);
        assert forall|k: int| 0 <= k < agents_in(items, own_pane).len() implies exists|j: int|
            0 <= j < items.len() && agent_entry(#[trigger] items[j], own_pane) == Some(
                #[trigger] agents_in(items, own_pane)[k],
            ) by {
            if k < agents_in(d, own_pane).len() {
                let j = choose|j: int|
                    0 <= j < d.len() && agent_entry(#[trigger] d[j], own_pane) == Some(
                        agents_in(d, own_pane)[k],
                    );
                assert(items[j] == d[j]);
            } else {
                assert(items[items.len() - 1] == items.last());
            }
        }
    }
}

/// Law: each agent read from an `agent list` answer comes from one of its
/// entries and keeps that entry's pane id and cwd.
pub proof fn lemma_listed_agent_keeps_cwd(items: Seq<Json>, own_pane: Seq<char>, k: int)
    requires
        0 <= k < agents_in(items, own_pane).len(),
    ensures
        exists|j: int|
            0 <= j < items.len() && agent_entry(#[trigger] items[j], own_pane) == Some(
                agents_in(items, own_pane)[k],
            ) && str_of(field(items[j], "pane_id"@)) == Some(agents_in(items, own_pane)[k].pane_id)
                && (str_of(field(items[j], "cwd"@)) matches Some(c) ==> agents_in(items, own_pane)[k].cwd
                == c),
{
    lemma_agents_from_items(items, own_pane);
    let j = choose|j: int|
        0 <= j < items.len() && agent_entry(#[trigger] items[j], own_pane) == Some(
            agents_in(items, own_pane)[k],
        );
    lemma_agent_entry_fields(items[j], own_pane);
}

/// `agent list` → agents (our own pane, `own_pane`, excluded).
pub fn agents_from(v: &Json, own_pane: &str) -> (r: Vec<HerdrAgent>)
    ensures
        r@.map_values(|h: HerdrAgent| agent_view(h)) == agents_in(
            items_at(*v, "result"@, "agents"@),
            own_pane@,
        ),
{
    let mut out: Vec<HerdrAgent> = Vec::new();
    match as_array(at(v.get("result"), "agents")) {
        Some(items) => {
            let mut i: usize = 0;
            while i < items.len()
                invariant
                    i <= items.len(),
                    out@.map_values(|h: HerdrAgent| agent_view(h)) == agents_in(
                        items@.take(i as int),
                        own_pane@,
                    ),
                decreases items.len() - i,
            {
                assert(items@.take(i + 1).drop_last() =~= items@.take(i as int));
                if let Some(a) = parse_agent(&items[i], own_pane) {
                    out.push(a);
                }
                assert(out@.map_values(|h: HerdrAgent| agent_view(h)) =~= agents_in(
                    items@.take(i + 1),
                    own_pane@,
                ));
                i += 1;
            }
            assert(items@.take(items.len() as int) =~= items@);
        },
        None => {
            assert(out@.map_values(|h: HerdrAgent| agent_view(h)) =~= Seq::<AgentView>::empty());
        },
    }
    out
}

/// A workspace's repo as plain values.
pub struct RepoView {
    pub repo_key: Seq<char>,
    pub repo_name: Seq<char>,
    pub repo_root: Seq<char>,
    pub checkout_path: Seq<char>,
    pub is_linked_worktree: bool,
}

pub open spec fn repo_view(r: WorkspaceRepo) -> RepoView {
    RepoView {
        repo_key: r.repo_key@,
        repo_name: r.repo_name@,
        repo_root: r.repo_root@,
        checkout_path: r.checkout_path@,
        is_linked_worktree: r.is_linked_worktree,
    }
}

pub open spec fn opt_repo_view(r: Option<WorkspaceRepo>) -> Option<RepoView> {
    match r {
        Some(x) => Some(repo_view(x)),
        None => None,
    }
}

/// A workspace as plain values.
pub struct WorkspaceView {
    pub id: Seq<char>,
    pub label: Seq<char>,
    pub number: u64,
    pub focused: bool,
    pub tab_count: u64,
    pub pane_count: u64,
    pub agent_status: Seq<char>,
    pub repo: Option<RepoView>,
}

pub open spec fn workspace_view(w: HerdrWorkspace) -> WorkspaceView {
    WorkspaceView {
        id: w.id@,
        label: w.label@,
        number: w.number,
        focused: w.focused,
        tab_count: w.tab_count,
        pane_count: w.pane_count,
        agent_status: w.agent_status@,
        repo: opt_repo_view(w.repo),
    }
}

pub open spec fn u64_or_zero(o: Option<Json>) -> u64 {
    match u64_of(o) {
        Some(n) => n,
        None => 0,
    }
}

pub open spec fn bool_or_false(o: Option<Json>) -> bool {
    match bool_of(o) {
        Some(b) => b,
        None => false,
    }
}

/// One `workspace list` entry; none without a (non-empty) workspace id.
pub open spec fn workspace_entry(w: Json) -> Option<WorkspaceView> {
    let id = str_of(field(w, "workspace_id"@));
    let wt = field(w, "worktree"@);
    if id is None || id->0.len() == 0 {
        None
    } else {
        Some(
            WorkspaceView {
                id: id->0,
                label: str_or(field(w, "label"@), "(unnamed)"@),
                number: u64_or_zero(field(w, "number"@)),
                focused: bool_or_false(field(w, "focused"@)),
                tab_count: u64_or_zero(field(w, "tab_count"@)),
                pane_count: u64_or_zero(field(w, "pane_count"@)),
                agent_status: str_or(field(w, "agent_status"@), Seq::empty()),
                repo: if object_of(wt) {
                    Some(
                        RepoView {
                            repo_key: str_or(field_of(wt, "repo_key"@), Seq::empty()),
                            repo_name: str_or(field_of(wt, "repo_name"@), Seq::empty()),
                            repo_root: str_or(field_of(wt, "repo_root"@), Seq::empty()),
                            checkout_path: str_or(field_of(wt, "checkout_path"@), Seq::empty()),
                            is_linked_worktree: bool_or_false(
                                field_of(wt, "is_linked_worktree"@),
                            ),
                        },
                    )
                } else {
                    None
                },
            },
        )
    }
}

fn u64_or(o: Option<&Json>) -> (r: u64)
    ensures
        r == u64_or_zero(as_spec(o)),
{
    match as_u64(o) {
        Some(n) => n,
        None => 0,
    }
}

fn flag(o: Option<&Json>) -> (r: bool)
    ensures
        r == bool_or_false(as_spec(o)),
{
    match as_bool(o) {
        Some(b) => b,
        None => false,
    }
}

pub fn parse_workspace(w: &Json) -> (r: Option<HerdrWorkspace>)
    ensures
        match r {
            Some(x) => workspace_entry(*w) == Some(workspace_view(x)),
            None => workspace_entry(*w) is None,
        },
{
    let id = match as_str(w.get("workspace_id")) {
        Some(id) => id,
        None => {
            return None;
        },
    };
    if chars_of(id.as_str()).len() == 0 {
        return None;
    }
    let wt = w.get("worktree");
    let repo = if is_object(wt) {
        Some(
            WorkspaceRepo {
                repo_key: text_or_empty(at(wt, "repo_key")),
                repo_name: text_or_empty(at(wt, "repo_name")),
                repo_root: text_or_empty(at(wt, "repo_root")),
                checkout_path: text_or_empty(at(wt, "checkout_path")),
                is_linked_worktree: flag(at(wt, "is_linked_worktree")),
            },
        )
    } else {
        None
    };
    Some(
        HerdrWorkspace {
            id,
            label: text_or(w.get("label"), "(unnamed)"),
            number: u64_or(w.get("number")),
            focused: flag(w.get("focused")),
            tab_count: u64_or(w.get("tab_count")),
            pane_count: u64_or(w.get("pane_count")),
            agent_status: text_or_empty(w.get("agent_status")),
            repo,
        },
    )
}

pub open spec fn workspaces_in(items: Seq<Json>) -> Seq<WorkspaceView>
    decreases items.len(),
{
    if items.len() == 0 {
        Seq::empty()
    } else {
        let r = workspaces_in(items.drop_last());
        match workspace_entry(items.last()) {
            Some(w) => r.push(w),
            None => r,
        }
    }
}

/// `workspace list` → workspaces, entries without an id skipped.
pub fn workspaces_from(v: &Json) -> (r: Vec<HerdrWorkspace>)
    ensures
        r@.map_values(|w: HerdrWorkspace| workspace_view(w)) == workspaces_in(
            items_at(*v, "result"@, "workspaces"@),
        ),
{
    let mut out: Vec<HerdrWorkspace> = Vec::new();
    match as_array(at(v.get("result"), "workspaces")) {
        Some(items) => {
            let mut i: usize = 0;
            while i < items.len()
                invariant
                    i <= items.len(),
                    out@.map_values(|w: HerdrWorkspace| workspace_view(w)) == workspaces_in(
                        items@.take(i as int),
                    ),
                decreases items.len() - i,
            {
                assert(items@.take(i + 1).drop_last() =~= items@.take(i as int));
                if let Some(w) = parse_workspace(&items[i]) {
                    out.push(w);
                }
                assert(out@.map_values(|w: HerdrWorkspace| workspace_view(w)) =~= workspaces_in(
                    items@.take(i + 1),
                ));
                i += 1;
            }
            assert(items@.take(items.len() as int) =~= items@);
        },
        None => {
            assert(out@.map_values(|w: HerdrWorkspace| workspace_view(w))
                =~= Seq::<WorkspaceView>::empty());
        },
    }
    out
}

/// The first entry of `list` open in `workspace_id`.
pub open spec fn open_in(list: Seq<Json>, workspace_id: Seq<char>) -> Option<Json>
    decreases list.len(),
{
    if list.len() == 0 {
        None
    } else if str_of(field(list[0], "open_workspace_id"@)) == Some(workspace_id) {
        Some(list[0])
    } else {
        open_in(list.drop_first(), workspace_id)
    }
}

/// The repo of `workspace_id` from its `worktree list --workspace` result:
/// `source` names the repo (none without key or root); the `worktrees[]` entry
/// open in that workspace gives its checkout and whether it is a linked
/// worktree (default: the source checkout).
pub open spec fn repo_of_listing(result: Json, workspace_id: Seq<char>) -> Option<RepoView> {
    let source = field(result, "source"@);
    let key = str_or(field_of(source, "repo_key"@), Seq::empty());
    let root = str_or(field_of(source, "repo_root"@), Seq::empty());
    let own = match array_of(field(result, "worktrees"@)) {
        Some(list) => open_in(list, workspace_id),
        None => None,
    };
    if key.len() == 0 || root.len() == 0 {
        None
    } else {
        Some(
            RepoView {
                repo_key: key,
                repo_name: str_or(field_of(source, "repo_name"@), Seq::empty()),
                repo_root: root,
                checkout_path: match str_of(field_of(own, "path"@)) {
                    Some(p) => p,
                    None => str_or(field_of(source, "source_checkout_path"@), Seq::empty()),
                },
                is_linked_worktree: bool_or_false(field_of(own, "is_linked_worktree"@)),
            },
        )
    }
}

fn find_open<'a>(list: &'a Vec<Json>, workspace_id: &str) -> (r: Option<&'a Json>)
    ensures
        as_spec(r) == open_in(list@, workspace_id@),
{
    let id = chars_of(workspace_id);
    let mut i: usize = 0;
    assert(list@.skip(0) =~= list@);
    while i < list.len()
        invariant
            i <= list.len(),
            id@ == workspace_id@,
            open_in(list@, workspace_id@) == open_in(list@.skip(i as int), workspace_id@),
        decreases list.len() - i,
    {
        assert(list@.skip(i as int)[0] == list@[i as int]);
        let matches = match as_str(list[i].get("open_workspace_id")) {
            Some(s) => crate::branch::vec_equal(&chars_of(s.as_str()), &id),
            None => false,
        };
        if matches {
            return Some(&list[i]);
        }
        assert(list@.skip(i as int).drop_first() =~= list@.skip(i + 1));
        i += 1;
    }
    None
}

pub fn repo_from_worktree_list(result: &Json, workspace_id: &str) -> (r: Option<WorkspaceRepo>)
    ensures
        opt_repo_view(r) == repo_of_listing(*result, workspace_id@),
{
    let source = result.get("source");
    let repo_key = text_or_empty(at(source, "repo_key"));
    let repo_root = text_or_empty(at(source, "repo_root"));
    if chars_of(repo_key.as_str()).len() == 0 || chars_of(repo_root.as_str()).len() == 0 {
        return None;
    }
    let own = match as_array(result.get("worktrees")) {
        Some(list) => find_open(list, workspace_id),
        None => None,
    };
    let checkout_path = match as_str(at(own, "path")) {
        Some(p) => p,
        None => text_or_empty(at(source, "source_checkout_path")),
    };
    Some(
        WorkspaceRepo {
            repo_key,
            repo_name: text_or_empty(at(source, "repo_name")),
            checkout_path,
            is_linked_worktree: flag(at(own, "is_linked_worktree")),
            repo_root,
        },
    )
}

/// A checkout as plain values.
pub struct WorktreeView {
    pub branch: Seq<char>,
    pub path: Seq<char>,
    pub open: bool,
    pub is_main: bool,
}

pub open spec fn worktree_view(w: RepoWorktree) -> WorktreeView {
    WorktreeView { branch: w.branch@, path: w.path@, open: w.open, is_main: w.is_main }
}

pub open spec fn refs_heads() -> Seq<char> {
    "refs/heads/"@
}

/// One `worktree list` entry: bare, prunable and branchless (detached)
/// checkouts are skipped (`worktree open` needs a branch); `refs/heads/` is
/// dropped from the branch.
pub open spec fn worktree_entry(w: Json) -> Option<WorktreeView> {
    let raw = str_or(field(w, "branch"@), Seq::empty());
    let branch = if crate::text::starts_with(raw, refs_heads()) {
        raw.skip(11)
    } else {
        raw
    };
    let open_id = str_of(field(w, "open_workspace_id"@));
    if bool_or_false(field(w, "is_bare"@)) || bool_or_false(field(w, "is_prunable"@))
        || branch.len() == 0 {
        None
    } else {
        Some(
            WorktreeView {
                branch,
                path: str_or(field(w, "path"@), Seq::empty()),
                open: open_id is Some && open_id->0.len() > 0,
                is_main: !bool_or_false(field(w, "is_linked_worktree"@)),
            },
        )
    }
}

pub open spec fn worktrees_in(items: Seq<Json>) -> Seq<WorktreeView>
    decreases items.len(),
{
    if items.len() == 0 {
        Seq::empty()
    } else {
        let r = worktrees_in(items.drop_last());
        match worktree_entry(items.last()) {
            Some(w) => r.push(w),
            None => r,
        }
    }
}

fn parse_worktree(w: &Json) -> (r: Option<RepoWorktree>)
    ensures
        match r {
            Some(x) => worktree_entry(*w) == Some(worktree_view(x)),
            None => worktree_entry(*w) is None,
        },
{
    if flag(w.get("is_bare")) || flag(w.get("is_prunable")) {
        return None;
    }
    let raw = chars_of(text_or_empty(w.get("branch")).as_str());
    let prefix = chars_of("refs/heads/");
    proof {
        reveal_strlit("refs/heads/");
    }
    let branch = if crate::text::starts_with_vec(&raw, &prefix) {
        let b = crate::text::slice_vec(&raw, 11, raw.len());
        assert(b@ =~= raw@.skip(11));
        b
    } else {
        raw
    };
    if branch.len() == 0 {
        return None;
    }
    let open = match as_str(w.get("open_workspace_id")) {
        Some(id) => chars_of(id.as_str()).len() > 0,
        None => false,
    };
    Some(
        RepoWorktree {
            branch: string_of(&branch),
            path: text_or_empty(w.get("path")),
            open,
            is_main: !flag(w.get("is_linked_worktree")),
        },
    )
}

/// Law: a listed checkout is the main checkout exactly when its entry does
/// not mark it as a linked worktree; its path is the entry's "path" string
/// (empty without one), and it is open exactly when the entry names a
/// non-empty open workspace. Bare and prunable checkouts are never listed.
pub proof fn lemma_worktree_entry_fields(w: Json)
    ensures
        bool_of(field(w, "is_bare"@)) == Some(true) ==> worktree_entry(w) is None,
        bool_of(field(w, "is_prunable"@)) == Some(true) ==> worktree_entry(w) is None,
        worktree_entry(w) matches Some(v) ==> {
            &&& v.is_main == (bool_of(field(w, "is_linked_worktree"@)) != Some(true))
            &&& (str_of(field(w, "path"@)) matches Some(p) ==> v.path == p)
            &&& (str_of(field(w, "path"@)) is None ==> v.path.len() == 0)
            &&& v.open == (str_of(field(w, "open_workspace_id"@)) matches Some(id) && id.len() > 0)
            &&& v.branch.len() > 0
            &&& str_of(field(w, "branch"@)) is Some
            &&& crate::text::starts_with(str_of(field(w, "branch"@))->0, "refs/heads/"@) ==> v.branch
                == str_of(field(w, "branch"@))->0.skip("refs/heads/"@.len() as int)
            &&& !crate::text::starts_with(str_of(field(w, "branch"@))->0, "refs/heads/"@) ==> v.branch
                == str_of(field(w, "branch"@))->0
        },
{
    reveal_strlit("refs/heads/");
}

/// Every checkout listed from `items` is the reading of one of the items,
/// in the order of the items.
proof fn lemma_worktrees_from_items(items: Seq<Json>)
    ensures
        forall|k: int|
            0 <= k < worktrees_in(items).len() ==> exists|j: int|
                0 <= j < items.len() && worktree_entry(#[trigger] items[j]) == Some(
                    #[trigger] worktrees_in(items)[k],
                ),
    decreases items.len(),
{
    if items.len() > 0 {
        let d = items.drop_last();
        lemma_worktrees_from_items(d);
        assert forall|k: int| 0 <= k < worktrees_in(items).len() implies exists|j: int|
            0 <= j < items.len() && worktree_entry(#[trigger] items[j]) == Some(
                #[trigger] worktrees_in(items)[k],
            ) by {
            if k < worktrees_in(d).len() {
                let j = choose|j: int|
                    0 <= j < d.len() && worktree_entry(#[trigger] d[j]) == Some(worktrees_in(d)[k]);
                assert(items[j] == d[j]);
            } else {
                assert(items[items.len() - 1] == items.last());
            }
        }
    }
}

/// Law: each checkout read from a `worktree list` answer comes from one of
/// its entries, and is the main checkout exactly when that entry does not
/// mark it as a linked worktree.
pub proof fn lemma_listed_worktree_is_main(items: Seq<Json>, k: int)
    requires
        0 <= k < worktrees_in(items).len(),
    ensures
        exists|j: int|
            0 <= j < items.len() && worktree_entry(#[trigger] items[j]) == Some(worktrees_in(items)[k])
                && worktrees_in(items)[k].is_main == (bool_of(field(items[j], "is_linked_worktree"@))
                != Some(true)) && (str_of(field(items[j], "path"@)) matches Some(p)
                ==> worktrees_in(items)[k].path == p),
{
    lemma_worktrees_from_items(items);
    let j = choose|j: int|
        0 <= j < items.len() && worktree_entry(#[trigger] items[j]) == Some(worktrees_in(items)[k]);
    lemma_worktree_entry_fields(items[j]);
}

/// `worktree list` result → openable checkouts.
pub fn parse_worktrees(result: &Json) -> (r: Vec<RepoWorktree>)
    ensures
        r@.map_values(|w: RepoWorktree| worktree_view(w)) == worktrees_in(
            match array_of(field(*result, "worktrees"@)) {
                Some(a) => a,
                None => Seq::empty(),
            },
        ),
{
    let mut out: Vec<RepoWorktree> = Vec::new();
    match as_array(result.get("worktrees")) {
        Some(items) => {
            let mut i: usize = 0;
            while i < items.len()
                invariant
                    i <= items.len(),
                    out@.map_values(|w: RepoWorktree| worktree_view(w)) == worktrees_in(
                        items@.take(i as int),
                    ),
                decreases items.len() - i,
            {
                assert(items@.take(i + 1).drop_last() =~= items@.take(i as int));
                if let Some(w) = parse_worktree(&items[i]) {
                    out.push(w);
                }
                assert(out@.map_values(|w: RepoWorktree| worktree_view(w)) =~= worktrees_in(
                    items@.take(i + 1),
                ));
                i += 1;
            }
            assert(items@.take(items.len() as int) =~= items@);
        },
        None => {
            assert(out@.map_values(|w: RepoWorktree| worktree_view(w))
                =~= Seq::<WorktreeView>::empty());
        },
    }
    out
}

} // verus!

verus! {

// ---------------------------------------------------------------------------
// projects

/// A project being collected: the lowest number of its workspaces and the
/// project as plain values.
pub struct ProjectEntry {
    pub first: u64,
    pub name: Seq<char>,
    pub root: Seq<char>,
    pub key: Seq<char>,
    pub open: nat,
    pub current: bool,
}

/// Index of the entry with repo key `key`, or -1.
pub open spec fn key_index(es: Seq<ProjectEntry>, key: Seq<char>) -> int
    decreases es.len(),
{
    if es.len() == 0 {
        -1
    } else if es.last().key == key {
        es.len() - 1
    } else {
        key_index(es.drop_last(), key)
    }
}

/// The repo name, else the last component of its root, else the root.
pub open spec fn project_name(r: RepoView) -> Seq<char> {
    if r.repo_name.len() == 0 {
        match path_file_name(r.repo_root) {
            Some(n) => n,
            None => r.repo_root,
        }
    } else {
        r.repo_name
    }
}

/// Fold one workspace into the projects: workspaces without a repo (or with
/// an empty key or root) are skipped; linked worktrees join their source
/// repo's project.
pub open spec fn fold_step(es: Seq<ProjectEntry>, w: WorkspaceView, current: Seq<char>) -> Seq<
    ProjectEntry,
> {
    match w.repo {
        None => es,
        Some(r) => if r.repo_key.len() == 0 || r.repo_root.len() == 0 {
            es
        } else {
            let i = key_index(es, r.repo_key);
            let es2 = if i < 0 {
                es.push(
                    ProjectEntry {
                        first: w.number,
                        name: project_name(r),
                        root: r.repo_root,
                        key: r.repo_key,
                        open: 0,
                        current: false,
                    },
                )
            } else {
                es
            };
            let j = if i < 0 {
                es.len() as int
            } else {
                i
            };
            let e = es2[j];
            es2.update(
                j,
                ProjectEntry {
                    first: if w.number < e.first {
                        w.number
                    } else {
                        e.first
                    },
                    open: if r.is_linked_worktree {
                        e.open + 1
                    } else {
                        e.open
                    },
                    current: e.current || (current.len() > 0 && w.id == current),
                    ..e
                },
            )
        },
    }
}

pub open spec fn fold_projects(ws: Seq<WorkspaceView>, current: Seq<char>) -> Seq<ProjectEntry>
    decreases ws.len(),
{
    if ws.len() == 0 {
        Seq::empty()
    } else {
        fold_step(fold_projects(ws.drop_last(), current), ws.last(), current)
    }
}

/// Sort order: the current project first, then by lowest workspace number.
pub open spec fn entry_before(a: ProjectEntry, b: ProjectEntry) -> bool {
    (a.current && !b.current) || (a.current == b.current && a.first <= b.first)
}

/// Insert `x` after every entry ordered before it.
pub open spec fn insert_entry(s: Seq<ProjectEntry>, x: ProjectEntry) -> Seq<ProjectEntry>
    decreases s.len(),
{
    if s.len() == 0 {
        seq![x]
    } else if entry_before(s.last(), x) {
        s.push(x)
    } else {
        insert_entry(s.drop_last(), x).push(s.last())
    }
}

/// Stable sort by [`entry_before`].
pub open spec fn sort_entries(s: Seq<ProjectEntry>) -> Seq<ProjectEntry>
    decreases s.len(),
{
    if s.len() == 0 {
        s
    } else {
        insert_entry(sort_entries(s.drop_last()), s.last())
    }
}

pub open spec fn ins_pos(s: Seq<ProjectEntry>, x: ProjectEntry) -> int
    decreases s.len(),
{
    if s.len() == 0 {
        0
    } else if entry_before(s.last(), x) {
        s.len() as int
    } else {
        ins_pos(s.drop_last(), x)
    }
}

proof fn lemma_insert_entry(s: Seq<ProjectEntry>, x: ProjectEntry)
    ensures
        0 <= ins_pos(s, x) <= s.len(),
        insert_entry(s, x) == s.take(ins_pos(s, x)).push(x) + s.skip(ins_pos(s, x)),
    decreases s.len(),
{
    if s.len() == 0 {
        assert(insert_entry(s, x) =~= s.take(0).push(x) + s.skip(0));
    } else if entry_before(s.last(), x) {
        assert(insert_entry(s, x) =~= s.take(s.len() as int).push(x) + s.skip(s.len() as int));
    } else {
        let d = s.drop_last();
        lemma_insert_entry(d, x);
        let p = ins_pos(d, x);
        assert(insert_entry(s, x) =~= s.take(p).push(x) + s.skip(p));
    }
}

/// Law: the sort puts the current project first and orders by lowest
/// workspace number.
pub open spec fn entries_sorted(s: Seq<ProjectEntry>) -> bool {
    forall|i: int, j: int| 0 <= i < j < s.len() ==> entry_before(#[trigger] s[i], #[trigger] s[j])
}

proof fn lemma_insert_sorted(s: Seq<ProjectEntry>, x: ProjectEntry)
    requires
        entries_sorted(s),
    ensures
        entries_sorted(insert_entry(s, x)),
        insert_entry(s, x).len() == s.len() + 1,
        insert_entry(s, x).to_multiset() == s.to_multiset().insert(x),
    decreases s.len(),
{
    broadcast use vstd::seq_lib::group_to_multiset_ensures;
    if s.len() == 0 {
        assert(seq![x] =~= Seq::<ProjectEntry>::empty().push(x));
    } else if entry_before(s.last(), x) {
        let r = s.push(x);
        assert forall|i: int, j: int| 0 <= i < j < r.len() implies entry_before(
            #[trigger] r[i],
            #[trigger] r[j],
        ) by {
            if j == s.len() {
                assert(entry_before(s[i], s[s.len() - 1]) || i == s.len() - 1);
            }
        }
    } else {
        let d = s.drop_last();
        assert forall|i: int, j: int| 0 <= i < j < d.len() implies entry_before(
            #[trigger] d[i],
            #[trigger] d[j],
        ) by {
            assert(d[i] == s[i] && d[j] == s[j]);
        }
        lemma_insert_sorted(d, x);
        let m = insert_entry(d, x);
        let r = m.push(s.last());
        lemma_insert_entry(d, x);
        assert forall|i: int, j: int| 0 <= i < j < r.len() implies entry_before(
            #[trigger] r[i],
            #[trigger] r[j],
        ) by {
            if j == r.len() - 1 {
                let p = ins_pos(d, x);
                if i == p {
                    assert(r[i] == x);
                } else if i < p {
                    assert(r[i] == d[i]);
                    assert(entry_before(s[i], s[s.len() - 1]));
                } else {
                    assert(r[i] == d[i - 1]);
                    assert(entry_before(s[i - 1], s[s.len() - 1]));
                }
            }
        }
        assert(s =~= d.push(s.last()));
    }
}

proof fn lemma_sort_entries(s: Seq<ProjectEntry>)
    ensures
        entries_sorted(sort_entries(s)),
        sort_entries(s).to_multiset() == s.to_multiset(),
    decreases s.len(),
{
    broadcast use vstd::seq_lib::group_to_multiset_ensures;
    if s.len() > 0 {
        lemma_sort_entries(s.drop_last());
        lemma_insert_sorted(sort_entries(s.drop_last()), s.last());
        assert(s =~= s.drop_last().push(s.last()));
    }
}

/// Law: the projects come out sorted (current first, then by lowest
/// workspace number) and are exactly the collected ones.
pub proof fn lemma_projects_sorted(ws: Seq<WorkspaceView>, current: Seq<char>)
    ensures
        entries_sorted(sort_entries(fold_projects(ws, current))),
        sort_entries(fold_projects(ws, current)).to_multiset() == fold_projects(
            ws,
            current,
        ).to_multiset(),
{
    lemma_sort_entries(fold_projects(ws, current));
}

/// The workspace is folded into a project: it has a repo with a key and a root.
pub open spec fn folded(w: WorkspaceView) -> bool {
    w.repo is Some && w.repo->0.repo_key.len() > 0 && w.repo->0.repo_root.len() > 0
}

/// `e`'s sort number is the lowest number of the workspaces of its repo.
pub open spec fn first_is_lowest(ws: Seq<WorkspaceView>, e: ProjectEntry) -> bool {
    &&& forall|j: int|
        0 <= j < ws.len() && folded(#[trigger] ws[j]) && ws[j].repo->0.repo_key == e.key ==> e.first
            <= ws[j].number
    &&& exists|j: int|
        0 <= j < ws.len() && folded(#[trigger] ws[j]) && ws[j].repo->0.repo_key == e.key
            && ws[j].number == e.first
}

proof fn lemma_fold_lowest(ws: Seq<WorkspaceView>, current: Seq<char>)
    ensures
        forall|k: int|
            0 <= k < fold_projects(ws, current).len() ==> first_is_lowest(
                ws,
                #[trigger] fold_projects(ws, current)[k],
            ),
        forall|k: int, l: int|
            0 <= k < l < fold_projects(ws, current).len() ==> (#[trigger] fold_projects(ws, current)[k]).key
                != (#[trigger] fold_projects(ws, current)[l]).key,
        forall|j: int|
            0 <= j < ws.len() && folded(#[trigger] ws[j]) ==> key_index(
                fold_projects(ws, current),
                ws[j].repo->0.repo_key,
            ) >= 0,
    decreases ws.len(),
{
    if ws.len() > 0 {
        let d = ws.drop_last();
        let w = ws.last();
        let es = fold_projects(d, current);
        lemma_fold_lowest(d, current);
        assert forall|j: int| 0 <= j < d.len() implies d[j] == ws[j] by {}
        let fs = fold_projects(ws, current);
        assert(fs == fold_step(es, w, current));
        if folded(w) {
            let key = w.repo->0.repo_key;
            lemma_key_index(es, key);
            let i = key_index(es, key);
            if i >= 0 {
                let e = es[i];
                assert(fs == es.update(
                    i,
                    ProjectEntry {
                        first: if e.first <= w.number {
                            e.first
                        } else {
                            w.number
                        },
                        open: if w.repo->0.is_linked_worktree {
                            e.open + 1
                        } else {
                            e.open
                        },
                        current: e.current || (current.len() > 0 && w.id == current),
                        ..e
                    },
                ));
                assert(fs.len() == es.len());
                assert(forall|q: int| 0 <= q < fs.len() ==> #[trigger] fs[q].key == es[q].key);
                assert forall|k: int| 0 <= k < fs.len() implies first_is_lowest(ws, #[trigger] fs[k]) by {
                    let old_e = es[k];
                    assert(first_is_lowest(d, old_e));
                    let j0 = choose|j: int|
                        0 <= j < d.len() && folded(#[trigger] d[j]) && d[j].repo->0.repo_key
                            == old_e.key && d[j].number == old_e.first;
                    if k == i {
                        if w.number < old_e.first {
                            assert(ws[ws.len() - 1] == w);
                        } else {
                            assert(ws[j0] == d[j0]);
                        }
                        assert forall|j: int|
                            0 <= j < ws.len() && folded(#[trigger] ws[j]) && ws[j].repo->0.repo_key
                                == fs[k].key implies fs[k].first <= ws[j].number by {
                            if j < d.len() {
                                assert(ws[j] == d[j]);
                            }
                        }
                    } else {
                        assert(fs[k] == old_e);
                        assert(ws[j0] == d[j0]);
                        assert forall|j: int|
                            0 <= j < ws.len() && folded(#[trigger] ws[j]) && ws[j].repo->0.repo_key
                                == fs[k].key implies fs[k].first <= ws[j].number by {
                            if j < d.len() {
                                assert(ws[j] == d[j]);
                            } else {
                                assert(ws[j] == w);
                            }
                        }
                    }
                }
                assert forall|j: int| 0 <= j < ws.len() && folded(#[trigger] ws[j]) implies key_index(
                    fs,
                    ws[j].repo->0.repo_key,
                ) >= 0 by {
                    lemma_key_index(fs, ws[j].repo->0.repo_key);
                    if j < d.len() {
                        assert(ws[j] == d[j]);
                        assert(folded(d[j]));
                        lemma_key_index(es, d[j].repo->0.repo_key);
                        let q = key_index(es, ws[j].repo->0.repo_key);
                        assert(fs[q].key == es[q].key);
                    } else {
                        assert(ws[j] == w);
                        assert(fs[i].key == key);
                    }
                }
            } else {
                let n = es.len() as int;
                let r = w.repo->0;
                let e = ProjectEntry {
                    first: w.number,
                    name: project_name(r),
                    root: r.repo_root,
                    key: r.repo_key,
                    open: 0,
                    current: false,
                };
                let es2 = es.push(e);
                assert(es2[n] == e);
                assert(fs == es2.update(
                    n,
                    ProjectEntry {
                        first: if e.first <= w.number {
                            e.first
                        } else {
                            w.number
                        },
                        open: if r.is_linked_worktree {
                            e.open + 1
                        } else {
                            e.open
                        },
                        current: e.current || (current.len() > 0 && w.id == current),
                        ..e
                    },
                ));
                assert(fs.len() == n + 1);
                assert(forall|q: int| 0 <= q < n ==> #[trigger] fs[q] == es[q]);
                assert(fs[n].key == key);
                assert forall|k: int| 0 <= k < fs.len() implies first_is_lowest(ws, #[trigger] fs[k]) by {
                    if k == n {
                        assert(fs[k].key == key && fs[k].first == w.number);
                        assert(ws[ws.len() - 1] == w);
                        assert forall|j: int|
                            0 <= j < ws.len() && folded(#[trigger] ws[j]) && ws[j].repo->0.repo_key
                                == fs[k].key implies fs[k].first <= ws[j].number by {
                            if j < d.len() {
                                assert(ws[j] == d[j]);
                                assert(key_index(es, d[j].repo->0.repo_key) >= 0);
                                lemma_key_index(es, d[j].repo->0.repo_key);
                            }
                        }
                    } else {
                        let old_e = es[k];
                        assert(fs[k] == old_e);
                        assert(first_is_lowest(d, old_e));
                        let j0 = choose|j: int|
                            0 <= j < d.len() && folded(#[trigger] d[j]) && d[j].repo->0.repo_key
                                == old_e.key && d[j].number == old_e.first;
                        assert(ws[j0] == d[j0]);
                        assert forall|j: int|
                            0 <= j < ws.len() && folded(#[trigger] ws[j]) && ws[j].repo->0.repo_key
                                == fs[k].key implies fs[k].first <= ws[j].number by {
                            if j < d.len() {
                                assert(ws[j] == d[j]);
                            } else {
                                assert(ws[j] == w);
                                assert(es[k].key != key);
                            }
                        }
                    }
                }
                assert forall|j: int| 0 <= j < ws.len() && folded(#[trigger] ws[j]) implies key_index(
                    fs,
                    ws[j].repo->0.repo_key,
                ) >= 0 by {
                    lemma_key_index(fs, ws[j].repo->0.repo_key);
                    if j < d.len() {
                        assert(ws[j] == d[j]);
                        assert(folded(d[j]));
                        let q = key_index(es, ws[j].repo->0.repo_key);
                        lemma_key_index(es, ws[j].repo->0.repo_key);
                        assert(fs[q].key == es[q].key);
                    } else {
                        assert(ws[j] == w);
                        assert(fs[n].key == key);
                    }
                }
            }
        } else {
            assert(fs == es);
            assert forall|k: int| 0 <= k < fs.len() implies first_is_lowest(ws, #[trigger] fs[k]) by {
                let old_e = es[k];
                assert(first_is_lowest(d, old_e));
                let j0 = choose|j: int|
                    0 <= j < d.len() && folded(#[trigger] d[j]) && d[j].repo->0.repo_key == old_e.key
                        && d[j].number == old_e.first;
                assert(ws[j0] == d[j0]);
                assert forall|j: int|
                    0 <= j < ws.len() && folded(#[trigger] ws[j]) && ws[j].repo->0.repo_key
                        == fs[k].key implies fs[k].first <= ws[j].number by {
                    if j < d.len() {
                        assert(ws[j] == d[j]);
                    } else {
                        assert(ws[j] == w);
                    }
                }
            }
            assert forall|j: int| 0 <= j < ws.len() && folded(#[trigger] ws[j]) implies key_index(
                fs,
                ws[j].repo->0.repo_key,
            ) >= 0 by {
                if j < d.len() {
                    assert(ws[j] == d[j]);
                } else {
                    assert(ws[j] == w);
                }
            }
        }
    }
}

/// `e` is marked current exactly when one of its repo's workspaces is the
/// current workspace.
pub open spec fn current_is_right(ws: Seq<WorkspaceView>, current: Seq<char>, e: ProjectEntry) -> bool {
    e.current == exists|j: int|
        0 <= j < ws.len() && folded(#[trigger] ws[j]) && ws[j].repo->0.repo_key == e.key
            && current.len() > 0 && ws[j].id == current
}

proof fn lemma_fold_current(ws: Seq<WorkspaceView>, current: Seq<char>)
    ensures
        forall|k: int|
            0 <= k < fold_projects(ws, current).len() ==> current_is_right(
                ws,
                current,
                #[trigger] fold_projects(ws, current)[k],
            ),
    decreases ws.len(),
{
    if ws.len() > 0 {
        let d = ws.drop_last();
        let w = ws.last();
        let es = fold_projects(d, current);
        lemma_fold_current(d, current);
        lemma_fold_lowest(d, current);
        assert forall|j: int| 0 <= j < d.len() implies d[j] == ws[j] by {}
        assert(ws[ws.len() - 1] == w);
        let fs = fold_projects(ws, current);
        assert(fs == fold_step(es, w, current));
        let here = current.len() > 0 && w.id == current;
        if folded(w) {
            let key = w.repo->0.repo_key;
            lemma_key_index(es, key);
            let i = key_index(es, key);
            let n = es.len() as int;
            let j_at = if i < 0 {
                n
            } else {
                i
            };
            let r = w.repo->0;
            let es2 = if i < 0 {
                es.push(
                    ProjectEntry {
                        first: w.number,
                        name: project_name(r),
                        root: r.repo_root,
                        key: r.repo_key,
                        open: 0,
                        current: false,
                    },
                )
            } else {
                es
            };
            let e = es2[j_at];
            assert(fs == es2.update(
                j_at,
                ProjectEntry {
                    first: if e.first <= w.number {
                        e.first
                    } else {
                        w.number
                    },
                    open: if r.is_linked_worktree {
                        e.open + 1
                    } else {
                        e.open
                    },
                    current: e.current || here,
                    ..e
                },
            ));
            assert forall|k: int| 0 <= k < fs.len() implies current_is_right(ws, current, #[trigger] fs[k]) by {
                if k == j_at {
                    assert(fs[k].key == key);
                    if i >= 0 {
                        assert(current_is_right(d, current, es[i]));
                        if es[i].current {
                            let j0 = choose|j: int|
                                0 <= j < d.len() && folded(#[trigger] d[j]) && d[j].repo->0.repo_key
                                    == es[i].key && current.len() > 0 && d[j].id == current;
                            assert(ws[j0] == d[j0]);
                        }
                        if exists|j: int|
                            0 <= j < ws.len() && folded(#[trigger] ws[j]) && ws[j].repo->0.repo_key
                                == key && current.len() > 0 && ws[j].id == current {
                            let j1 = choose|j: int|
                                0 <= j < ws.len() && folded(#[trigger] ws[j]) && ws[j].repo->0.repo_key
                                    == key && current.len() > 0 && ws[j].id == current;
                            if j1 < d.len() {
                                assert(ws[j1] == d[j1]);
                            }
                        }
                    } else {
                        assert(fs[k].current == here);
                        if exists|j: int|
                            0 <= j < ws.len() && folded(#[trigger] ws[j]) && ws[j].repo->0.repo_key
                                == key && current.len() > 0 && ws[j].id == current {
                            let j1 = choose|j: int|
                                0 <= j < ws.len() && folded(#[trigger] ws[j]) && ws[j].repo->0.repo_key
                                    == key && current.len() > 0 && ws[j].id == current;
                            if j1 < d.len() {
                                assert(ws[j1] == d[j1]);
                                assert(folded(d[j1]));
                                assert(key_index(es, d[j1].repo->0.repo_key) >= 0);
                            }
                        }
                    }
                } else {
                    assert(fs[k] == es[k]);
                    assert(current_is_right(d, current, es[k]));
                    assert(es[k].key != key);
                    if es[k].current {
                        let j0 = choose|j: int|
                            0 <= j < d.len() && folded(#[trigger] d[j]) && d[j].repo->0.repo_key
                                == es[k].key && current.len() > 0 && d[j].id == current;
                        assert(ws[j0] == d[j0]);
                    }
                    if exists|j: int|
                        0 <= j < ws.len() && folded(#[trigger] ws[j]) && ws[j].repo->0.repo_key
                            == fs[k].key && current.len() > 0 && ws[j].id == current {
                        let j1 = choose|j: int|
                            0 <= j < ws.len() && folded(#[trigger] ws[j]) && ws[j].repo->0.repo_key
                                == fs[k].key && current.len() > 0 && ws[j].id == current;
                        if j1 < d.len() {
                            assert(ws[j1] == d[j1]);
                        }
                    }
                }
            }
        } else {
            assert(fs == es);
            assert forall|k: int| 0 <= k < fs.len() implies current_is_right(ws, current, #[trigger] fs[k]) by {
                assert(current_is_right(d, current, es[k]));
                if es[k].current {
                    let j0 = choose|j: int|
                        0 <= j < d.len() && folded(#[trigger] d[j]) && d[j].repo->0.repo_key
                            == es[k].key && current.len() > 0 && d[j].id == current;
                    assert(ws[j0] == d[j0]);
                }
                if exists|j: int|
                    0 <= j < ws.len() && folded(#[trigger] ws[j]) && ws[j].repo->0.repo_key
                        == fs[k].key && current.len() > 0 && ws[j].id == current {
                    let j1 = choose|j: int|
                        0 <= j < ws.len() && folded(#[trigger] ws[j]) && ws[j].repo->0.repo_key
                            == fs[k].key && current.len() > 0 && ws[j].id == current;
                    if j1 < d.len() {
                        assert(ws[j1] == d[j1]);
                    }
                }
            }
        }
    }
}

/// Law: each project comes out with the lowest number among the workspaces
/// of its repository as its sort number, it is the current project exactly
/// when one of those workspaces is the current one, and the current project
/// comes first, the others ordered by that number.
pub proof fn lemma_projects_by_lowest_number(ws: Seq<WorkspaceView>, current: Seq<char>)
    ensures
        forall|k: int|
            0 <= k < sort_entries(fold_projects(ws, current)).len() ==> first_is_lowest(
                ws,
                #[trigger] sort_entries(fold_projects(ws, current))[k],
            ) && current_is_right(ws, current, sort_entries(fold_projects(ws, current))[k]),
        forall|k: int, l: int|
            0 <= k < l < sort_entries(fold_projects(ws, current)).len() ==> {
                &&& (#[trigger] sort_entries(fold_projects(ws, current))[l]).current ==> (
                #[trigger] sort_entries(fold_projects(ws, current))[k]).current
                &&& sort_entries(fold_projects(ws, current))[k].current == sort_entries(
                    fold_projects(ws, current),
                )[l].current ==> sort_entries(fold_projects(ws, current))[k].first <= sort_entries(
                    fold_projects(ws, current),
                )[l].first
            },
{
    broadcast use vstd::seq_lib::group_to_multiset_ensures;
    let fs = fold_projects(ws, current);
    let ps = sort_entries(fs);
    lemma_projects_sorted(ws, current);
    lemma_fold_lowest(ws, current);
    lemma_fold_current(ws, current);
    assert forall|k: int| 0 <= k < ps.len() implies first_is_lowest(ws, #[trigger] ps[k])
        && current_is_right(ws, current, ps[k]) by {
        assert(ps.contains(ps[k]));
        assert(ps.to_multiset().count(ps[k]) > 0);
        assert(fs.to_multiset().count(ps[k]) > 0);
        assert(fs.contains(ps[k]));
        let q = choose|q: int| 0 <= q < fs.len() && fs[q] == ps[k];
    }
    assert forall|k: int, l: int| 0 <= k < l < ps.len() implies {
        &&& (#[trigger] ps[l]).current ==> (#[trigger] ps[k]).current
        &&& ps[k].current == ps[l].current ==> ps[k].first <= ps[l].first
    } by {
        assert(entry_before(ps[k], ps[l]));
    }
}

pub open spec fn project_entry_view(p: RepoProject) -> (Seq<char>, Seq<char>, Seq<char>, nat, bool) {
    (p.name@, p.root@, p.repo_key@, p.open_worktrees as nat, p.current)
}

pub open spec fn entry_project_view(e: ProjectEntry) -> (Seq<char>, Seq<char>, Seq<char>, nat, bool) {
    (e.name, e.root, e.key, e.open, e.current)
}

/// The entries held by the parallel vectors of the collection loop.
pub open spec fn entries_of(
    firsts: Seq<u64>,
    names: Seq<String>,
    roots: Seq<String>,
    keys: Seq<String>,
    opens: Seq<usize>,
    currents: Seq<bool>,
) -> Seq<ProjectEntry> {
    Seq::new(
        firsts.len(),
        |k: int|
            ProjectEntry {
                first: firsts[k],
                name: names[k]@,
                root: roots[k]@,
                key: keys[k]@,
                open: opens[k] as nat,
                current: currents[k],
            },
    )
}

proof fn lemma_key_index(es: Seq<ProjectEntry>, key: Seq<char>)
    ensures
        -1 <= key_index(es, key) < es.len(),
        key_index(es, key) >= 0 ==> es[key_index(es, key)].key == key,
        key_index(es, key) < 0 ==> forall|k: int| 0 <= k < es.len() ==> es[k].key != key,
    decreases es.len(),
{
    if es.len() > 0 && es.last().key != key {
        lemma_key_index(es.drop_last(), key);
        assert forall|k: int| key_index(es, key) < 0 && 0 <= k < es.len() implies es[k].key
            != key by {
            if k < es.len() - 1 {
                assert(es.drop_last()[k] == es[k]);
            }
        }
    }
}

/// One project per repo (`repo_key`): linked-worktree workspaces fold into
/// their source repo. The repo of `current_ws_id` comes first (even when that
/// workspace is a linked worktree); the rest follow their lowest workspace
/// number.
pub fn projects_from_workspaces(ws: &Vec<HerdrWorkspace>, current_ws_id: &str) -> (r: Vec<
    RepoProject,
>)
    ensures
        r@.map_values(|p: RepoProject| project_entry_view(p)) == sort_entries(
            fold_projects(ws@.map_values(|w: HerdrWorkspace| workspace_view(w)), current_ws_id@),
        ).map_values(|e: ProjectEntry| entry_project_view(e)),
{
    let ghost wv = ws@.map_values(|w: HerdrWorkspace| workspace_view(w));
    let cur = chars_of(current_ws_id);
    let mut firsts: Vec<u64> = Vec::new();
    let mut names: Vec<String> = Vec::new();
    let mut roots: Vec<String> = Vec::new();
    let mut keys: Vec<String> = Vec::new();
    let mut opens: Vec<usize> = Vec::new();
    let mut currents: Vec<bool> = Vec::new();
    let mut i: usize = 0;
    while i < ws.len()
        invariant
            i <= ws.len(),
            wv == ws@.map_values(|w: HerdrWorkspace| workspace_view(w)),
            cur@ == current_ws_id@,
            firsts.len() == names.len() && names.len() == roots.len() && roots.len()
                == keys.len() && keys.len() == opens.len() && opens.len() == currents.len(),
            forall|k: int| 0 <= k < opens.len() ==> opens@[k] <= i,
            entries_of(firsts@, names@, roots@, keys@, opens@, currents@) == fold_projects(
                wv.take(i as int),
                current_ws_id@,
            ),
        decreases ws.len() - i,
    {
        let w = &ws[i];
        assert(wv.take(i + 1).drop_last() =~= wv.take(i as int));
        assert(wv.take(i + 1).last() == workspace_view(*w));
        let ghost es = entries_of(firsts@, names@, roots@, keys@, opens@, currents@);
        if let Some(r) = &w.repo {
            if chars_of(r.repo_key.as_str()).len() != 0 && chars_of(r.repo_root.as_str()).len()
                != 0 {
                // find the project of this repo
                let mut k: usize = keys.len();
                proof {
                    lemma_key_index(es, r.repo_key@);
                }
                assert(es.take(keys.len() as int) =~= es);
                while k > 0 && !(keys[k - 1] == r.repo_key)
                    invariant
                        k <= keys.len(),
                        keys.len() == firsts.len(),
                        es == entries_of(firsts@, names@, roots@, keys@, opens@, currents@),
                        key_index(es, r.repo_key@) == key_index(es.take(k as int), r.repo_key@),
                    decreases k,
                {
                    assert(es.take(k as int).drop_last() =~= es.take(k - 1));
                    k -= 1;
                }
                let idx: usize;
                if k == 0 {
                    assert(key_index(es, r.repo_key@) == -1);
                    let name = if chars_of(r.repo_name.as_str()).len() == 0 {
                        dir_name(r.repo_root.as_str())
                    } else {
                        r.repo_name.clone()
                    };
                    firsts.push(w.number);
                    names.push(name);
                    roots.push(r.repo_root.clone());
                    keys.push(r.repo_key.clone());
                    opens.push(0);
                    currents.push(false);
                    idx = keys.len() - 1;
                } else {
                    assert(es.take(k as int).last() == es[k - 1]);
                    assert(key_index(es, r.repo_key@) == k - 1);
                    idx = k - 1;
                }
                let ghost es2 = entries_of(firsts@, names@, roots@, keys@, opens@, currents@);
                assert(es2 =~= if key_index(es, r.repo_key@) < 0 {
                    es.push(
                        ProjectEntry {
                            first: w.number,
                            name: project_name(repo_view(*r)),
                            root: r.repo_root@,
                            key: r.repo_key@,
                            open: 0,
                            current: false,
                        },
                    )
                } else {
                    es
                });
                let f = firsts[idx];
                if w.number < f {
                    firsts.set(idx, w.number);
                }
                if r.is_linked_worktree {
                    let o = opens[idx];
                    opens.set(idx, o + 1);
                }
                if cur.len() > 0 && crate::branch::vec_equal(&chars_of(w.id.as_str()), &cur) {
                    currents.set(idx, true);
                }
                assert(entries_of(firsts@, names@, roots@, keys@, opens@, currents@) =~= fold_step(
                    es,
                    workspace_view(*w),
                    current_ws_id@,
                ));
            }
        }
        i += 1;
    }
    assert(wv.take(ws.len() as int) =~= wv);
    let ghost all = entries_of(firsts@, names@, roots@, keys@, opens@, currents@);
    // stable insertion sort of the indices
    let mut order: Vec<usize> = Vec::new();
    let mut t: usize = 0;
    while t < firsts.len()
        invariant
            t <= firsts.len(),
            firsts.len() == names.len() && names.len() == roots.len() && roots.len()
                == keys.len() && keys.len() == opens.len() && opens.len() == currents.len(),
            all == entries_of(firsts@, names@, roots@, keys@, opens@, currents@),
            forall|q: int| 0 <= q < order.len() ==> order@[q] < t,
            order@.map_values(|q: usize| all[q as int]) == sort_entries(all.take(t as int)),
        decreases firsts.len() - t,
    {
        let ghost sorted = order@.map_values(|q: usize| all[q as int]);
        let ghost x = all[t as int];
        let mut pos: usize = order.len();
        assert(sorted.take(order.len() as int) =~= sorted);
        while pos > 0 && !((currents[order[pos - 1]] && !currents[t]) || (currents[order[pos - 1]]
            == currents[t] && firsts[order[pos - 1]] <= firsts[t]))
            invariant
                pos <= order.len(),
                t < firsts.len(),
                firsts.len() == currents.len(),
                forall|q: int| 0 <= q < order.len() ==> order@[q] < t,
                all == entries_of(firsts@, names@, roots@, keys@, opens@, currents@),
                sorted == order@.map_values(|q: usize| all[q as int]),
                x == all[t as int],
                ins_pos(sorted, x) == ins_pos(sorted.take(pos as int), x),
            decreases pos,
        {
            assert(sorted.take(pos as int).last() == all[order@[pos - 1] as int]);
            assert(sorted.take(pos as int).drop_last() =~= sorted.take(pos - 1));
            pos -= 1;
        }
        proof {
            if pos > 0 {
                assert(sorted.take(pos as int).last() == all[order@[pos - 1] as int]);
            }
            lemma_insert_entry(sorted, x);
        }
        order.insert(pos, t);
        assert(all.take(t + 1).drop_last() =~= all.take(t as int));
        assert(order@.map_values(|q: usize| all[q as int]) =~= sorted.take(pos as int).push(x)
            + sorted.skip(pos as int));
        t += 1;
    }
    assert(all.take(firsts.len() as int) =~= all);
    let mut out: Vec<RepoProject> = Vec::new();
    let mut u: usize = 0;
    let ghost want = sort_entries(all).map_values(|e: ProjectEntry| entry_project_view(e));
    assert(order@.map_values(|q: usize| all[q as int]).len() == order.len());
    while u < order.len()
        invariant
            u <= order.len(),
            forall|q: int| 0 <= q < order.len() ==> order@[q] < firsts.len(),
            firsts.len() == names.len() && names.len() == roots.len() && roots.len()
                == keys.len() && keys.len() == opens.len() && opens.len() == currents.len(),
            all == entries_of(firsts@, names@, roots@, keys@, opens@, currents@),
            order@.map_values(|q: usize| all[q as int]) == sort_entries(all),
            want == sort_entries(all).map_values(|e: ProjectEntry| entry_project_view(e)),
            out@.map_values(|p: RepoProject| project_entry_view(p)) == want.take(u as int),
            want.len() == order.len(),
            out.len() == u,
        decreases order.len() - u,
    {
        let q = order[u];
        assert(order@.map_values(|q: usize| all[q as int])[u as int] == all[q as int]);
        assert(sort_entries(all)[u as int] == all[q as int]);
        assert(want[u as int] == entry_project_view(all[q as int]));
        out.push(
            RepoProject {
                name: names[q].clone(),
                root: roots[q].clone(),
                repo_key: keys[q].clone(),
                open_worktrees: opens[q],
                current: currents[q],
            },
        );
        assert(project_entry_view(out@[u as int]) == want[u as int]);
        assert(out@.map_values(|p: RepoProject| project_entry_view(p)) =~= want.take(u + 1));
        u += 1;
    }
    assert(want.take(order.len() as int) =~= want);
    out
}

} // verus!

verus! {

// ---------------------------------------------------------------------------
// command lines and their answers

/// `s` as an argument.
pub fn arg(s: &str) -> (r: String)
    ensures
        r@ == s@,
{
    owned(s)
}

pub open spec fn focus_flag(focus: bool) -> Seq<char> {
    if focus {
        "--focus"@
    } else {
        "--no-focus"@
    }
}

fn focus_arg(focus: bool) -> (r: String)
    ensures
        r@ == focus_flag(focus),
{
    if focus {
        arg("--focus")
    } else {
        arg("--no-focus")
    }
}

/// `flag value` when `value` is not empty.
pub open spec fn opt_flag(flag: Seq<char>, value: Seq<char>) -> Seq<Seq<char>> {
    if value.len() > 0 {
        seq![flag, value]
    } else {
        Seq::empty()
    }
}

fn push_opt_flag(args: &mut Vec<String>, flag: &str, value: &String)
    ensures
        views(final(args)@) == views(old(args)@) + opt_flag(flag@, value@),
{
    if chars_of(value.as_str()).len() > 0 {
        args.push(arg(flag));
        args.push(value.clone());
        assert(views(args@) =~= views(old(args)@) + opt_flag(flag@, value@));
    } else {
        assert(views(args@) =~= views(old(args)@) + opt_flag(flag@, value@));
    }
}

/// `herdr tab create [--workspace W] [--cwd C] [--label L] --focus|--no-focus`.
pub open spec fn tab_create_args(
    workspace_id: Seq<char>,
    cwd: Seq<char>,
    label: Seq<char>,
    focus: bool,
) -> Seq<Seq<char>> {
    seq!["tab"@, "create"@] + opt_flag("--workspace"@, workspace_id) + opt_flag("--cwd"@, cwd)
        + opt_flag("--label"@, label) + seq![focus_flag(focus)]
}

pub fn tab_create_command(workspace_id: &String, cwd: &String, label: &String, focus: bool) -> (r: Vec<String>)
    ensures
        views(r@) == tab_create_args(workspace_id@, cwd@, label@, focus),
{
    let mut args: Vec<String> = Vec::new();
    args.push(arg("tab"));
    args.push(arg("create"));
    assert(views(args@) =~= seq!["tab"@, "create"@]);
    push_opt_flag(&mut args, "--workspace", workspace_id);
    push_opt_flag(&mut args, "--cwd", cwd);
    push_opt_flag(&mut args, "--label", label);
    let ghost before = views(args@);
    args.push(focus_arg(focus));
    assert(views(args@) =~= before + seq![focus_flag(focus)]);
    assert(views(args@) =~= tab_create_args(workspace_id@, cwd@, label@, focus));
    args
}

/// What a `tab create` answer says: the tab and its root pane, a tab whose
/// root pane must be looked up in `pane list`, or an error.
pub enum TabAnswer {
    Created(CreatedTab),
    LookUpPane { tab_id: String, result_text: String },
    Failed(String),
}

pub open spec fn tab_id_in(result: Option<Json>) -> Seq<char> {
    match str_of(field_of(field_of(result, "tab"@), "tab_id"@)) {
        Some(t) => t,
        None => str_or(field_of(result, "tab_id"@), Seq::empty()),
    }
}

pub open spec fn root_pane_in(result: Option<Json>) -> Seq<char> {
    str_or(field_of(field_of(result, "root_pane"@), "pane_id"@), Seq::empty())
}

/// Read a `tab create` answer `v`.
pub fn tab_answer(v: &Json) -> (r: TabAnswer)
    ensures
        tab_id_in(field(*v, "result"@)).len() == 0 ==> r is Failed && r->Failed_0@
            == "tab create: no tab_id in response: "@ + text_of(field(*v, "result"@)),
        tab_id_in(field(*v, "result"@)).len() > 0 && root_pane_in(field(*v, "result"@)).len() == 0
            ==> r is LookUpPane && r->tab_id@ == tab_id_in(field(*v, "result"@))
            && r->result_text@ == text_of(field(*v, "result"@)),
        tab_id_in(field(*v, "result"@)).len() > 0 && root_pane_in(field(*v, "result"@)).len() > 0
            ==> r is Created && r->Created_0.tab_id@ == tab_id_in(field(*v, "result"@))
            && r->Created_0.pane_id@ == root_pane_in(field(*v, "result"@)),
{
    let result = v.get("result");
    let tab_id = match as_str(at(at(result, "tab"), "tab_id")) {
        Some(t) => t,
        None => text_or_empty(at(result, "tab_id")),
    };
    let pane_id = text_or_empty(at(at(result, "root_pane"), "pane_id"));
    if chars_of(tab_id.as_str()).len() == 0 {
        let mut m = chars_of("tab create: no tab_id in response: ");
        push_string(&mut m, &text(result));
        return TabAnswer::Failed(string_of(&m));
    }
    if chars_of(pane_id.as_str()).len() == 0 {
        return TabAnswer::LookUpPane { tab_id, result_text: text(result) };
    }
    TabAnswer::Created(CreatedTab { tab_id, pane_id })
}

/// `herdr pane list [--workspace W]`.
pub open spec fn pane_list_args(workspace_id: Seq<char>) -> Seq<Seq<char>> {
    seq!["pane"@, "list"@] + opt_flag("--workspace"@, workspace_id)
}

pub fn pane_list_command(workspace_id: &String) -> (r: Vec<String>)
    ensures
        views(r@) == pane_list_args(workspace_id@),
{
    let mut args: Vec<String> = Vec::new();
    args.push(arg("pane"));
    args.push(arg("list"));
    assert(views(args@) =~= seq!["pane"@, "list"@]);
    push_opt_flag(&mut args, "--workspace", workspace_id);
    args
}

/// The first pane of a `pane list` answer that lies in `tab_id`.
pub open spec fn pane_in_tab_of(list: Seq<Json>, tab_id: Seq<char>) -> Option<Json>
    decreases list.len(),
{
    if list.len() == 0 {
        None
    } else if str_of(field(list[0], "tab_id"@)) == Some(tab_id) {
        Some(list[0])
    } else {
        pane_in_tab_of(list.drop_first(), tab_id)
    }
}

/// The pane id of the first pane in `tab_id` (none when it has no string
/// `pane_id`).
pub fn pane_in_tab(v: &Json, tab_id: &String) -> (r: Option<String>)
    ensures
        opt_view(r) == str_of(
            field_of(pane_in_tab_of(items_at(*v, "result"@, "panes"@), tab_id@), "pane_id"@),
        ),
{
    match as_array(at(v.get("result"), "panes")) {
        Some(list) => {
            let id = chars_of(tab_id.as_str());
            let mut i: usize = 0;
            assert(list@.skip(0) =~= list@);
            assert(items_at(*v, "result"@, "panes"@) == list@);
            while i < list.len()
                invariant
                    i <= list.len(),
                    items_at(*v, "result"@, "panes"@) == list@,
                    id@ == tab_id@,
                    pane_in_tab_of(list@, tab_id@) == pane_in_tab_of(list@.skip(i as int), tab_id@),
                decreases list.len() - i,
            {
                assert(list@.skip(i as int)[0] == list@[i as int]);
                let hit = match as_str(list[i].get("tab_id")) {
                    Some(s) => crate::branch::vec_equal(&chars_of(s.as_str()), &id),
                    None => false,
                };
                if hit {
                    return as_str(list[i].get("pane_id"));
                }
                assert(list@.skip(i as int).drop_first() =~= list@.skip(i + 1));
                i += 1;
            }
            None
        },
        None => None,
    }
}

/// `herdr worktree <action> --cwd R --branch B [--base ..] [--path ..]
/// [--label ..] --focus|--no-focus [--trust-repository]`; base and path only
/// for `create`.
pub open spec fn worktree_args(
    create: bool,
    repo: Seq<char>,
    wt: WorktreeOpts,
    focus: bool,
) -> Seq<Seq<char>> {
    seq!["worktree"@, if create {
        "create"@
    } else {
        "open"@
    }, "--cwd"@, repo, "--branch"@, wt.branch@] + (if create {
        opt_flag("--base"@, wt.base@) + opt_flag("--path"@, wt.path@)
    } else {
        Seq::empty()
    }) + opt_flag("--label"@, wt.label@) + seq![focus_flag(focus)] + (if wt.trust_repository {
        seq!["--trust-repository"@]
    } else {
        Seq::empty()
    })
}

pub fn worktree_command(create: bool, repo: &String, wt: &WorktreeOpts, focus: bool) -> (r: Vec<String>)
    ensures
        views(r@) == worktree_args(create, repo@, *wt, focus),
{
    let mut args: Vec<String> = Vec::new();
    args.push(arg("worktree"));
    args.push(
        if create {
            arg("create")
        } else {
            arg("open")
        },
    );
    args.push(arg("--cwd"));
    args.push(repo.clone());
    args.push(arg("--branch"));
    args.push(wt.branch.clone());
    let ghost head = views(args@);
    assert(head =~= seq!["worktree"@, if create {
        "create"@
    } else {
        "open"@
    }, "--cwd"@, repo@, "--branch"@, wt.branch@]);
    if create {
        push_opt_flag(&mut args, "--base", &wt.base);
        push_opt_flag(&mut args, "--path", &wt.path);
        assert(views(args@) =~= head + (opt_flag("--base"@, wt.base@) + opt_flag("--path"@, wt.path@)));
    } else {
        assert(views(args@) =~= head + Seq::<Seq<char>>::empty());
    }
    let ghost mid = views(args@);
    push_opt_flag(&mut args, "--label", &wt.label);
    let ghost mid2 = views(args@);
    args.push(focus_arg(focus));
    assert(views(args@) =~= mid2 + seq![focus_flag(focus)]);
    let ghost tail = views(args@);
    if wt.trust_repository {
        args.push(arg("--trust-repository"));
        assert(views(args@) =~= tail + seq!["--trust-repository"@]);
    } else {
        assert(views(args@) =~= tail + Seq::<Seq<char>>::empty());
    }
    assert(views(args@) =~= worktree_args(create, repo@, *wt, focus));
    args
}

/// An opened worktree as plain values.
pub struct OpenedView {
    pub workspace_id: Seq<char>,
    pub pane_id: Seq<char>,
    pub checkout_path: Seq<char>,
    pub already_open: bool,
}

pub open spec fn opened_view(o: OpenedWorktree) -> OpenedView {
    OpenedView {
        workspace_id: o.workspace_id@,
        pane_id: o.pane_id@,
        checkout_path: o.checkout_path@,
        already_open: o.already_open,
    }
}

/// `v.as_str()` when it is a non-empty string.
pub open spec fn non_empty(o: Option<Json>) -> Option<Seq<char>> {
    match str_of(o) {
        Some(s) => if s.len() > 0 {
            Some(s)
        } else {
            None
        },
        None => None,
    }
}

pub fn non_empty_str(o: Option<&Json>) -> (r: Option<String>)
    ensures
        opt_view(r) == non_empty(as_spec(o)),
{
    match as_str(o) {
        Some(s) => if chars_of(s.as_str()).len() > 0 {
            Some(s)
        } else {
            None
        },
        None => None,
    }
}

/// A `worktree open|create` result: the root pane and the workspace are
/// required; the checkout path comes from `worktree.path`, else
/// `workspace.worktree.checkout_path`, else the root pane's cwd, else empty.
pub open spec fn opened_of(result: Option<Json>) -> Result<OpenedView, Seq<char>> {
    let root = field_of(result, "root_pane"@);
    let pane = non_empty(field_of(root, "pane_id"@));
    let ws = if non_empty(field_of(field_of(result, "workspace"@), "workspace_id"@)) is Some {
        non_empty(field_of(field_of(result, "workspace"@), "workspace_id"@))
    } else {
        non_empty(field_of(root, "workspace_id"@))
    };
    let path = if non_empty(field_of(field_of(result, "worktree"@), "path"@)) is Some {
        non_empty(field_of(field_of(result, "worktree"@), "path"@))->0
    } else if non_empty(
        field_of(field_of(field_of(result, "workspace"@), "worktree"@), "checkout_path"@),
    ) is Some {
        non_empty(
            field_of(field_of(field_of(result, "workspace"@), "worktree"@), "checkout_path"@),
        )->0
    } else if non_empty(field_of(root, "cwd"@)) is Some {
        non_empty(field_of(root, "cwd"@))->0
    } else {
        Seq::empty()
    };
    if pane is None {
        Err("worktree: no root_pane.pane_id in response: "@ + text_of(result))
    } else if ws is None {
        Err("worktree: no workspace_id in response: "@ + text_of(result))
    } else {
        Ok(
            OpenedView {
                workspace_id: ws->0,
                pane_id: pane->0,
                checkout_path: path,
                already_open: bool_or_false(field_of(result, "already_open"@)),
            },
        )
    }
}

pub fn parse_opened_worktree(result: Option<&Json>) -> (r: Result<OpenedWorktree, String>)
    ensures
        match r {
            Ok(o) => opened_of(as_spec(result)) == Ok::<OpenedView, Seq<char>>(opened_view(o)),
            Err(e) => opened_of(as_spec(result)) == Err::<OpenedView, Seq<char>>(e@),
        },
{
    let root = at(result, "root_pane");
    let pane_id = match non_empty_str(at(root, "pane_id")) {
        Some(p) => p,
        None => {
            let mut m = chars_of("worktree: no root_pane.pane_id in response: ");
            push_string(&mut m, &text(result));
            return Err(string_of(&m));
        },
    };
    let workspace_id = match non_empty_str(at(at(result, "workspace"), "workspace_id")) {
        Some(w) => w,
        None => match non_empty_str(at(root, "workspace_id")) {
            Some(w) => w,
            None => {
                let mut m = chars_of("worktree: no workspace_id in response: ");
                push_string(&mut m, &text(result));
                return Err(string_of(&m));
            },
        },
    };
    let checkout_path = match non_empty_str(at(at(result, "worktree"), "path")) {
        Some(p) => p,
        None => match non_empty_str(at(at(at(result, "workspace"), "worktree"), "checkout_path")) {
            Some(p) => p,
            None => match non_empty_str(at(root, "cwd")) {
                Some(p) => p,
                None => String::new(),
            },
        },
    };
    Ok(
        OpenedWorktree {
            workspace_id,
            pane_id,
            checkout_path,
            already_open: flag(at(result, "already_open")),
        },
    )
}

/// Rank of a pane as split parent: our own pane, then the focused one, then
/// any other.
pub open spec fn pane_rank(p: Json, own_pane: Seq<char>) -> int {
    if str_of(field(p, "pane_id"@)) == Some(own_pane) {
        0
    } else if bool_of(field(p, "focused"@)) == Some(true) {
        1
    } else {
        2
    }
}

/// A pane of `workspace_id` with a non-empty id.
pub open spec fn split_candidate(p: Json, workspace_id: Seq<char>) -> bool {
    str_of(field(p, "workspace_id"@)) == Some(workspace_id) && non_empty(field(p, "pane_id"@))
        is Some
}

/// The first candidate of lowest rank (`Iterator::min_by_key`).
pub open spec fn best_pane(list: Seq<Json>, workspace_id: Seq<char>, own_pane: Seq<char>) -> Option<
    Json,
>
    decreases list.len(),
{
    if list.len() == 0 {
        None
    } else {
        let b = best_pane(list.drop_last(), workspace_id, own_pane);
        let x = list.last();
        if !split_candidate(x, workspace_id) {
            b
        } else {
            match b {
                None => Some(x),
                Some(y) => if pane_rank(x, own_pane) < pane_rank(y, own_pane) {
                    Some(x)
                } else {
                    Some(y)
                },
            }
        }
    }
}

/// The pane to split in `workspace_id`, from a `pane list` answer `v`.
pub fn split_parent(v: &Json, workspace_id: &str, own_pane: &str) -> (r: Option<String>)
    ensures
        opt_view(r) == str_of(
            field_of(
                best_pane(items_at(*v, "result"@, "panes"@), workspace_id@, own_pane@),
                "pane_id"@,
            ),
        ),
{
    let list = match as_array(at(v.get("result"), "panes")) {
        Some(l) => l,
        None => {
            return None;
        },
    };
    let ws = chars_of(workspace_id);
    let own = chars_of(own_pane);
    let mut best: Option<usize> = None;
    let mut best_rank: u8 = 3;
    let mut i: usize = 0;
    while i < list.len()
        invariant
            i <= list.len(),
            ws@ == workspace_id@,
            own@ == own_pane@,
            match best {
                Some(b) => b < i && best_pane(list@.take(i as int), workspace_id@, own_pane@)
                    == Some(list@[b as int]) && best_rank as int == pane_rank(
                    list@[b as int],
                    own_pane@,
                ),
                None => best_pane(list@.take(i as int), workspace_id@, own_pane@) is None,
            },
        decreases list.len() - i,
    {
        let p = &list[i];
        assert(list@.take(i + 1).drop_last() =~= list@.take(i as int));
        assert(list@.take(i + 1).last() == list@[i as int]);
        let in_ws = match as_str(p.get("workspace_id")) {
            Some(s) => crate::branch::vec_equal(&chars_of(s.as_str()), &ws),
            None => false,
        };
        let has_id = non_empty_str(p.get("pane_id")).is_some();
        if in_ws && has_id {
            let is_own = match as_str(p.get("pane_id")) {
                Some(s) => crate::branch::vec_equal(&chars_of(s.as_str()), &own),
                None => false,
            };
            let rank: u8 = if is_own {
                0
            } else if as_bool(p.get("focused")) == Some(true) {
                1
            } else {
                2
            };
            match best {
                None => {
                    best = Some(i);
                    best_rank = rank;
                },
                Some(_) => {
                    if rank < best_rank {
                        best = Some(i);
                        best_rank = rank;
                    }
                },
            }
        }
        i += 1;
    }
    assert(list@.take(list.len() as int) =~= list@);
    match best {
        Some(b) => as_str(list[b].get("pane_id")),
        None => None,
    }
}

} // verus!

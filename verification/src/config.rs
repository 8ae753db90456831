//! Plugin configuration (`config.toml`): its model, the defaults of every
//! optional setting, what happens to a freshly parsed file, `{project}`
//! expansion of JQL templates and the decisions of API-token resolution.
//! Reading and parsing the file is the caller's part.

use vstd::prelude::*;
use crate::text::{
    append, chars_of, owned, push_str, push_string, replace_all, replace_str, string_of,
    trim_vec, trim_ws,
};

verus! {

#[derive(Debug, Clone)]
pub struct Config {
    pub jira: JiraConfig,
    pub filters: Vec<Filter>,
    pub search: SearchConfig,
    pub delegate: DelegateConfig,
    /// Settings for `w` (create a git worktree for the selected issue).
    pub worktree: WorktreeConfig,
}

#[derive(Debug, Clone)]
pub struct JiraConfig {
    pub base_url: String,
    /// "basic" | "bearer"
    pub auth: String,
    pub email: String,
    pub api_token: String,
    pub api_token_cmd: String,
    pub default_project: String,
    pub max_results: u32,
}

#[derive(Debug, Clone)]
pub struct Filter {
    pub name: String,
    pub jql: String,
}

#[derive(Debug, Clone)]
pub struct SearchConfig {
    pub jql: String,
}

/// One agent binary that can be run in a new pane when delegating.
#[derive(Debug, Clone)]
pub struct SpawnAgent {
    /// Display label and default herdr agent name prefix (e.g. "codex").
    pub name: String,
    /// Argv shell-quoted for `herdr pane run` (e.g. `["codex"]`).
    pub command: Vec<String>,
}

#[derive(Debug, Clone)]
pub struct DelegateConfig {
    pub prompt: String,
    pub submit: bool,
    /// Legacy setting, ignored: `agent prompt` handles submission server-side.
    pub submit_delay_ms: u64,
    pub max_description_chars: usize,
    /// Agents offered when starting a new one (not only listing running).
    pub agents: Vec<SpawnAgent>,
    /// Preferred cwd prefilled / listed first when starting a new agent.
    pub default_cwd: String,
    /// "tab" (default) | "right" | "down".
    pub placement: String,
    /// Focus the new agent pane / tab after start.
    pub focus_new: bool,
    /// Always wait this long after `pane run` before sending the prompt (ms).
    pub startup_delay_ms: u64,
    /// After the startup delay, wait up to this many ms for detection and
    /// `idle`. Failure aborts delivery; 0 explicitly skips the readiness check.
    pub wait_ready_ms: u64,
}

/// Settings for `w`: create (or reopen) a git worktree for an issue, then
/// optionally start an agent in it.
#[derive(Debug, Clone)]
pub struct WorktreeConfig {
    /// Default repo for `w` when no per-project entry matches; empty = ask.
    pub repo: String,
    /// Per Jira project key repo dirs, e.g. ("PROJ", "~/workspace/project");
    /// each key once (they come from a TOML table).
    pub repos: Vec<(String, String)>,
    /// Prefill for the worktree name input ({key} {slug} {type}).
    pub branch: String,
    /// Base ref for NEW branches; empty = herdr default (HEAD of the repo).
    pub base: String,
    /// Checkout path template ({key} {slug} {type} {branch}); empty = herdr default.
    pub path: String,
    /// Workspace label template ({key} {slug} {type} {branch}).
    pub label: String,
    /// Pass --trust-repository. Only enable for repositories you have verified.
    pub trust_repository: bool,
    /// Focus the worktree workspace after opening it.
    pub focus: bool,
    /// Submit the prompt to agents started by `w`; unset = `[delegate].submit`.
    pub submit: Option<bool>,
}

pub fn default_auth() -> (r: String)
    ensures
        r@ == "basic"@,
{
    owned("basic")
}

pub fn default_max_results() -> (r: u32)
    ensures
        r == 50,
{
    50
}

pub fn default_search_jql() -> (r: String)
    ensures
        r@ == "text ~ \"{query}\" ORDER BY updated DESC"@,
{
    owned("text ~ \"{query}\" ORDER BY updated DESC")
}

pub fn default_true() -> (r: bool)
    ensures
        r,
{
    true
}

pub fn default_submit_delay() -> (r: u64)
    ensures
        r == 500,
{
    500
}

pub fn default_max_desc() -> (r: usize)
    ensures
        r == 6000,
{
    6000
}

pub fn default_placement() -> (r: String)
    ensures
        r@ == "tab"@,
{
    owned("tab")
}

pub fn default_startup_delay() -> (r: u64)
    ensures
        r == 1500,
{
    1500
}

pub fn default_wait_ready() -> (r: u64)
    ensures
        r == 30_000,
{
    30_000
}

pub fn default_worktree_branch() -> (r: String)
    ensures
        r@ == "{key}"@,
{
    owned("{key}")
}

pub fn default_worktree_label() -> (r: String)
    ensures
        r@ == "{key}"@,
{
    owned("{key}")
}

/// An agent whose command is its own name.
fn named_agent(name: &str) -> (a: SpawnAgent)
    ensures
        a.name@ == name@,
        a.command@.len() == 1,
        a.command@[0]@ == name@,
{
    let mut command: Vec<String> = Vec::new();
    command.push(owned(name));
    SpawnAgent { name: owned(name), command }
}

/// Names of the agents offered when none are configured.
pub open spec fn default_agent_names() -> Seq<Seq<char>> {
    seq!["codex"@, "grok"@, "cursor"@, "opencode"@]
}

pub fn default_spawn_agents() -> (r: Vec<SpawnAgent>)
    ensures
        r@.len() == 4,
        forall|i: int|
            0 <= i < 4 ==> (#[trigger] r@[i]).name@ == default_agent_names()[i]
                && r@[i].command@.len() == 1 && r@[i].command@[0]@ == default_agent_names()[i],
{
    let mut r: Vec<SpawnAgent> = Vec::new();
    r.push(named_agent("codex"));
    r.push(named_agent("grok"));
    r.push(named_agent("cursor"));
    r.push(named_agent("opencode"));
    r
}

pub open spec fn default_prompt_text() -> Seq<char> {
    "You are asked to work on Jira issue {key}: {summary}\n\nLink: {url}\n\nDescription:\n{description}\n\nPlease analyze the issue, implement what it describes, and summarize what you changed when you are done."@
}

pub fn default_prompt() -> (r: String)
    ensures
        r@ == default_prompt_text(),
{
    owned(
        "You are asked to work on Jira issue {key}: {summary}\n\nLink: {url}\n\nDescription:\n{description}\n\nPlease analyze the issue, implement what it describes, and summarize what you changed when you are done.",
    )
}

impl Default for SearchConfig {
    fn default() -> (r: Self)
        ensures
            r.jql@ == "text ~ \"{query}\" ORDER BY updated DESC"@,
    {
        SearchConfig { jql: default_search_jql() }
    }
}

/// The `[delegate]` table when the file has none.
pub open spec fn is_default_delegate(d: DelegateConfig) -> bool {
    &&& d.prompt@ == default_prompt_text()
    &&& d.submit
    &&& d.submit_delay_ms == 500
    &&& d.max_description_chars == 6000
    &&& d.agents@.len() == 4
    &&& forall|i: int|
        0 <= i < 4 ==> (#[trigger] d.agents@[i]).name@ == default_agent_names()[i]
            && d.agents@[i].command@.len() == 1 && d.agents@[i].command@[0]@
            == default_agent_names()[i]
    &&& d.default_cwd@.len() == 0
    &&& d.placement@ == "tab"@
    &&& !d.focus_new
    &&& d.startup_delay_ms == 1500
    &&& d.wait_ready_ms == 30_000
}

impl Default for DelegateConfig {
    fn default() -> (r: Self)
        ensures
            is_default_delegate(r),
    {
        DelegateConfig {
            prompt: default_prompt(),
            submit: true,
            submit_delay_ms: default_submit_delay(),
            max_description_chars: default_max_desc(),
            agents: default_spawn_agents(),
            default_cwd: String::new(),
            placement: default_placement(),
            focus_new: false,
            startup_delay_ms: default_startup_delay(),
            wait_ready_ms: default_wait_ready(),
        }
    }
}

/// The `[worktree]` table when the file has none.
pub open spec fn is_default_worktree(w: WorktreeConfig) -> bool {
    &&& w.repo@.len() == 0
    &&& w.repos@.len() == 0
    &&& w.branch@ == "{key}"@
    &&& w.base@.len() == 0
    &&& w.path@.len() == 0
    &&& w.label@ == "{key}"@
    &&& !w.trust_repository
    &&& w.focus
    &&& w.submit is None
}

impl Default for WorktreeConfig {
    fn default() -> (r: Self)
        ensures
            is_default_worktree(r),
    {
        WorktreeConfig {
            repo: String::new(),
            repos: Vec::new(),
            branch: default_worktree_branch(),
            base: String::new(),
            path: String::new(),
            label: default_worktree_label(),
            trust_repository: false,
            focus: true,
            submit: None,
        }
    }
}

/// `s.trim_end_matches(c)`.
pub open spec fn strip_trailing(s: Seq<char>, c: char) -> Seq<char>
    decreases s.len(),
{
    if s.len() > 0 && s.last() == c {
        strip_trailing(s.drop_last(), c)
    } else {
        s
    }
}

fn strip_trailing_string(s: &String, c: char) -> (r: String)
    ensures
        r@ == strip_trailing(s@, c),
{
    let v = chars_of(s.as_str());
    let mut j: usize = v.len();
    assert(v@.take(v.len() as int) =~= v@);
    while j > 0 && v[j - 1] == c
        invariant
            j <= v.len(),
            strip_trailing(s@, c) == strip_trailing(v@.take(j as int), c),
            v@ == s@,
        decreases j,
    {
        assert(v@.take(j as int).drop_last() =~= v@.take(j - 1));
        j -= 1;
    }
    let t = crate::text::slice_vec(&v, 0, j);
    assert(t@ =~= v@.take(j as int));
    string_of(&t)
}

pub open spec fn my_issues_name() -> Seq<char> {
    "My open issues"@
}

pub open spec fn my_issues_jql() -> Seq<char> {
    "assignee = currentUser() AND resolution = Unresolved ORDER BY updated DESC"@
}

pub open spec fn project_filter_jql() -> Seq<char> {
    "project = {project} ORDER BY updated DESC"@
}

/// The filters a loaded config ends up with: the file's own, or the built-in
/// "My open issues" followed, with a default project, by "Project {p}".
pub open spec fn effective_filters(fs: Seq<Filter>, project: Seq<char>) -> Seq<(Seq<char>, Seq<char>)> {
    if fs.len() > 0 {
        fs.map_values(|f: Filter| (f.name@, f.jql@))
    } else if project.len() == 0 {
        seq![(my_issues_name(), my_issues_jql())]
    } else {
        seq![(my_issues_name(), my_issues_jql()), ("Project "@ + project, project_filter_jql())]
    }
}

pub open spec fn filter_views(fs: Seq<Filter>) -> Seq<(Seq<char>, Seq<char>)> {
    fs.map_values(|f: Filter| (f.name@, f.jql@))
}

impl Config {
    /// What loading does to a freshly parsed file: trailing '/' dropped from
    /// `base_url`, built-in filters when the file names none.
    pub fn normalized(self) -> (r: Config)
        ensures
            r.jira.base_url@ == strip_trailing(self.jira.base_url@, '/'),
            r.jira.auth == self.jira.auth,
            r.jira.email == self.jira.email,
            r.jira.api_token == self.jira.api_token,
            r.jira.api_token_cmd == self.jira.api_token_cmd,
            r.jira.default_project == self.jira.default_project,
            r.jira.max_results == self.jira.max_results,
            filter_views(r.filters@) == effective_filters(self.filters@, self.jira.default_project@),
            r.search == self.search,
            r.delegate == self.delegate,
            r.worktree == self.worktree,
    {
        let mut cfg = self;
        cfg.jira.base_url = strip_trailing_string(&cfg.jira.base_url, '/');
        if cfg.filters.len() == 0 {
            cfg.filters.push(
                Filter {
                    name: owned("My open issues"),
                    jql: owned(
                        "assignee = currentUser() AND resolution = Unresolved ORDER BY updated DESC",
                    ),
                },
            );
            if chars_of(cfg.jira.default_project.as_str()).len() != 0 {
                let mut name: Vec<char> = Vec::new();
                push_str(&mut name, "Project ");
                push_string(&mut name, &cfg.jira.default_project);
                cfg.filters.push(
                    Filter {
                        name: string_of(&name),
                        jql: owned("project = {project} ORDER BY updated DESC"),
                    },
                );
            }
            assert(filter_views(cfg.filters@) =~= effective_filters(
                self.filters@,
                self.jira.default_project@,
            ));
        } else {
            assert(filter_views(cfg.filters@) =~= effective_filters(
                self.filters@,
                self.jira.default_project@,
            ));
        }
        cfg
    }

    /// Expand {project} in a JQL template.
    pub fn expand_jql(&self, template: &str) -> (r: String)
        ensures
            r@ == replace_all(template@, "{project}"@, self.jira.default_project@),
    {
        proof {
            reveal_strlit("{project}");
        }
        replace_str(template, "{project}", self.jira.default_project.as_str())
    }

    /// First step of resolving the API token: the inline value wins, else
    /// `api_token_cmd` is to be run; neither is an error.
    pub fn resolve_token(&self) -> (r: TokenStep)
        ensures
            trim_ws(self.jira.api_token@).len() > 0 ==> r == TokenStep::Ready(
                Ok(r->Ready_0->Ok_0),
            ) && r->Ready_0->Ok_0@ == trim_ws(self.jira.api_token@),
            trim_ws(self.jira.api_token@).len() == 0 && trim_ws(self.jira.api_token_cmd@).len()
                == 0 ==> r is Ready && r->Ready_0 is Err && r->Ready_0->Err_0@
                == "no api_token or api_token_cmd set in [jira] config"@,
            trim_ws(self.jira.api_token@).len() == 0 && trim_ws(self.jira.api_token_cmd@).len()
                > 0 ==> r is RunCommand && r->RunCommand_0@ == trim_ws(self.jira.api_token_cmd@),
    {
        let inline = trim_vec(&chars_of(self.jira.api_token.as_str()));
        if inline.len() != 0 {
            return TokenStep::Ready(Ok(string_of(&inline)));
        }
        let cmd = trim_vec(&chars_of(self.jira.api_token_cmd.as_str()));
        if cmd.len() == 0 {
            return TokenStep::Ready(Err(owned("no api_token or api_token_cmd set in [jira] config")));
        }
        TokenStep::RunCommand(string_of(&cmd))
    }
}

/// Where token resolution stands: done, or `sh -c <command>` must run.
pub enum TokenStep {
    Ready(Result<String, String>),
    RunCommand(String),
}

/// What running `api_token_cmd` gave: the exit status rendered as text, and
/// stdout / stderr decoded (lossily) as UTF-8.
pub struct CommandOutput {
    pub success: bool,
    pub status: String,
    pub stdout: String,
    pub stderr: String,
}

/// The token from the command's outcome (`started` is `Err` with the reason
/// when the process could not be started).
pub fn token_from_command(started: Result<CommandOutput, String>) -> (r: Result<String, String>)
    ensures
        started is Err ==> r is Err && r->Err_0@ == "api_token_cmd failed to start: "@
            + started->Err_0@,
        started is Ok && !started->Ok_0.success ==> r is Err && r->Err_0@
            == "api_token_cmd exited with "@ + started->Ok_0.status@ + ": "@ + trim_ws(
            started->Ok_0.stderr@,
        ),
        started is Ok && started->Ok_0.success && trim_ws(started->Ok_0.stdout@).len() == 0
            ==> r is Err && r->Err_0@ == "api_token_cmd produced no output"@,
        started is Ok && started->Ok_0.success && trim_ws(started->Ok_0.stdout@).len() > 0
            ==> r is Ok && r->Ok_0@ == trim_ws(started->Ok_0.stdout@),
{
    match started {
        Err(e) => {
            let mut m: Vec<char> = Vec::new();
            push_str(&mut m, "api_token_cmd failed to start: ");
            push_string(&mut m, &e);
            Err(string_of(&m))
        },
        Ok(out) => {
            if !out.success {
                let mut m: Vec<char> = Vec::new();
                push_str(&mut m, "api_token_cmd exited with ");
                push_string(&mut m, &out.status);
                push_str(&mut m, ": ");
                let t = trim_vec(&chars_of(out.stderr.as_str()));
                append(&mut m, &t);
                return Err(string_of(&m));
            }
            let token = trim_vec(&chars_of(out.stdout.as_str()));
            if token.len() == 0 {
                return Err(owned("api_token_cmd produced no output"));
            }
            Ok(string_of(&token))
        },
    }
}

/// `PathBuf::from(a).join(b)` for a relative `b`: a separator is added
/// unless `a` is empty or already ends with '/'.
pub open spec fn path_join(a: Seq<char>, b: Seq<char>) -> Seq<char> {
    if a.len() == 0 || a.last() == '/' {
        a + b
    } else {
        a + seq!['/'] + b
    }
}

pub fn join_path(a: &str, b: &str) -> (r: String)
    ensures
        r@ == path_join(a@, b@),
{
    let mut v = chars_of(a);
    if v.len() != 0 && v[v.len() - 1] != '/' {
        v.push('/');
    }
    push_str(&mut v, b);
    string_of(&v)
}

/// Where the config file lives: `$HERDR_PLUGIN_CONFIG_DIR/config.toml`, else
/// under `$HOME/.config/herdr/plugins/config/han.jira-worktree/` (`plugin_dir`
/// and `home` are those variables, empty when unset).
pub fn config_path(plugin_dir: &str, home: &str) -> (r: String)
    ensures
        plugin_dir@.len() > 0 ==> r@ == path_join(plugin_dir@, "config.toml"@),
        plugin_dir@.len() == 0 ==> r@ == path_join(
            home@,
            ".config/herdr/plugins/config/han.jira-worktree/config.toml"@,
        ),
{
    if chars_of(plugin_dir).len() != 0 {
        return join_path(plugin_dir, "config.toml");
    }
    join_path(home, ".config/herdr/plugins/config/han.jira-worktree/config.toml")
}

} // verus!

//! The interactive issue browser: its state, what each key does to it, and
//! what each answer from Jira or herdr does to it. Work that leaves the
//! process (Jira requests, herdr commands, opening a URL) is not done here:
//! it is queued as an `Action` in `App::actions`, and the caller reports the
//! outcome back through `App::on_resp`.

use vstd::prelude::*;
use crate::config::{Config, DelegateConfig, JiraConfig, SearchConfig, SpawnAgent, WorktreeConfig};
use crate::herdr::{HerdrAgent, HerdrWorkspace, RepoProject, RepoWorktree, StartAgentOpts, WorktreeOpts};
use crate::issue::{Comment, Issue, Transition, epic, is_epic};
use crate::keyed::{KeyMap, KeySet};
use crate::naming::{expand_path, expanded, opt_view};
use crate::text::{append, chars_of, owned, push_str, push_string, string_of};

pub mod flow;
pub mod paths;
pub mod keys;
pub mod replies;

verus! {

#[derive(Debug, Clone, Copy, PartialEq, Eq, Structural)]
pub enum Screen {
    List,
    Detail,
    FilterPicker,
    TransitionPicker,
    AgentPicker,
    /// Pick which agent binary to spawn (from `[delegate].agents`).
    NewAgentTypePicker,
    /// Pick which herdr workspace ("space") to place the new agent in.
    NewAgentWorkspacePicker,
    /// Pick a working directory for the new agent.
    NewAgentCwdPicker,
    /// Free-text cwd entry (from "type path…" in the cwd picker).
    NewAgentCwdInput,
    /// `w`: pick the herdr project (source repo) for the worktree.
    WorktreeProjectPicker,
    /// `w`: free-text repo path (from "type path…" in the project picker).
    WorktreeRepoInput,
    /// `w`: the repo's worktrees; row 0 = "+ new worktree".
    WorktreeListPicker,
    /// `w`: new worktree (branch) name, prefilled from `[worktree].branch`.
    WorktreeNameInput,
    /// `w`: optionally start an agent in the worktree.
    WorktreeAgentPicker,
    SearchInput,
    JqlInput,
    Help,
}

/// A key as the browser sees it.
#[derive(Debug, Clone, Copy, PartialEq, Eq, Structural)]
pub enum KeyCode {
    Char(char),
    Enter,
    Esc,
    Backspace,
    Tab,
    Up,
    Down,
    Left,
    Right,
    PageUp,
    PageDown,
    Home,
    End,
    Other,
}

#[derive(Debug, Clone, Copy, PartialEq, Eq, Structural)]
pub struct Key {
    pub code: KeyCode,
    /// Control was held.
    pub ctrl: bool,
}

/// An answer to an `Action`.
pub enum Resp {
    Issues { title: String, result: Result<Vec<Issue>, String> },
    Transitions { key: String, result: Result<Vec<Transition>, String> },
    Transitioned { key: String, name: String, result: Result<(), String> },
    Agents(Result<Vec<HerdrAgent>, String>),
    Workspaces(Result<Vec<HerdrWorkspace>, String>),
    Delegated {
        key: String,
        label: String,
        /// The prompt was submitted; false = only pasted for review.
        submitted: bool,
        result: Result<(), String>,
    },
    /// `w` without an agent: `result` is the checkout path.
    WorktreeOpened { branch: String, result: Result<String, String> },
    /// `w`: herdr projects for the project picker.
    Projects(Result<Vec<RepoProject>, String>),
    /// `w`: checkouts of the repo at `repo`.
    RepoWorktrees { repo: String, result: Result<Vec<RepoWorktree>, String> },
    Children { epic: String, result: Result<Vec<Issue>, String> },
    Comments { key: String, result: Result<Vec<Comment>, String> },
    /// The zoom toggle of our own pane.
    Zoomed(Result<(), String>),
}

/// Work for the caller; each answers with the `Resp` named.
pub enum Action {
    /// Jira search → `Resp::Issues` with `title`.
    Search { jql: String, title: String },
    /// The issues of an epic: `jql`, or `fallback` when it fails →
    /// `Resp::Children`.
    SearchChildren { epic: String, jql: String, fallback: String },
    /// → `Resp::Transitions`.
    FetchTransitions { key: String },
    /// → `Resp::Transitioned` with `to_status` as its name.
    ApplyTransition { key: String, transition_id: String, to_status: String },
    /// → `Resp::Comments`.
    FetchComments { key: String },
    /// `herdr agent list` → `Resp::Agents`.
    ListAgents,
    /// `herdr workspace list` → `Resp::Workspaces`.
    ListWorkspaces,
    /// → `Resp::Projects`.
    ListProjects,
    /// `herdr worktree list --cwd repo` → `Resp::RepoWorktrees`.
    ListWorktrees { repo: String },
    /// Hand `text` to a running agent → `Resp::Delegated`.
    SendToAgent { key: String, agent: HerdrAgent, text: String, submit: bool, submit_delay_ms: u64 },
    /// Start an agent and hand it `text` → `Resp::Delegated`, labelled with
    /// the started agent's label (or `agent_label` on failure).
    StartAndDelegate {
        key: String,
        agent_label: String,
        opts: StartAgentOpts,
        text: String,
        submit: bool,
        submit_delay_ms: u64,
        startup_delay_ms: u64,
        wait_ready_ms: u64,
    },
    /// Open or create a worktree with no agent → `Resp::WorktreeOpened`.
    OpenWorktree { branch: String, repo: String, opts: WorktreeOpts, focus: bool },
    /// Toggle the zoom of our own pane → `Resp::Zoomed`.
    ToggleZoom,
    /// Open a URL in the browser; no answer.
    OpenUrl { url: String },
    /// A herdr notification; no answer.
    Notify { message: String },
    /// Load the config again → `App::reload_config`.
    ReloadConfig,
}

/// The process environment the browser reads.
pub struct AppEnv {
    /// `$HOME`.
    pub home: Option<String>,
    /// `$HERDR_WORKSPACE_ID`, empty when unset.
    pub workspace_id: String,
    /// The current directory, when known.
    pub current_dir: Option<String>,
}

/// What loading the config gave.
pub enum ConfigLoad {
    /// The file could not be read or parsed.
    Failed(String),
    /// Parsed, but no Jira client could be made from it.
    NoClient(Config, String),
    Ready(Config),
}

/// One row of the issue list: a top-level issue, or child `child` of the
/// epic at `top`.
#[derive(Debug, Clone, Copy, PartialEq, Eq, Structural)]
pub struct Row {
    pub top: usize,
    pub child: Option<usize>,
}

/// The issue list: what was searched, epic expansion, the selection.
pub struct ListState {
    pub issues: Vec<Issue>,
    /// Epic expansion state: children by epic key, the epics shown open and
    /// the ones still fetching.
    pub children: KeyMap<Vec<Issue>>,
    pub expanded: KeySet,
    pub loading_children: KeySet,
    pub selected: usize,
    pub current_title: String,
    pub loading: bool,
    pub filter_idx: usize,
    pub last_jql: String,
    pub search_input: String,
    pub jql_input: String,
}

/// The detail view: scroll positions and the comments shown there.
pub struct DetailState {
    pub detail_scroll: u16,
    /// Comments by issue key (newest first), fetches in flight, failures.
    pub comments: KeyMap<Vec<Comment>>,
    pub comments_loading: KeySet,
    pub comments_err: KeyMap<String>,
    pub comment_scroll: u16,
    /// j/k scroll the comments pane instead of the description.
    pub detail_focus_comments: bool,
}

/// The transition picker.
pub struct TransitionState {
    pub transitions: Vec<Transition>,
    pub transitions_for: String,
    pub transitions_loading: bool,
}

/// The agent picker and the "start new agent" wizard.
pub struct SpawnState {
    pub agents: Vec<HerdrAgent>,
    pub agents_loading: bool,
    /// Agent picked while walking the "start new" wizard.
    pub pending_spawn: Option<SpawnAgent>,
    /// Workspace picked for the new agent.
    pub pending_workspace: Option<HerdrWorkspace>,
    pub workspaces: Vec<HerdrWorkspace>,
    pub workspaces_loading: bool,
    /// Distinct cwd candidates for the new-agent cwd picker.
    pub cwd_choices: Vec<String>,
    pub cwd_input: String,
}

/// The `w` flow: repo, its worktrees, the branch and the agent to start.
pub struct WorktreeState {
    /// Validated repo dir the worktree comes from.
    pub wt_repo: String,
    /// Display name of `wt_repo`.
    pub wt_repo_name: String,
    /// The project picker was shown (Esc on the worktree list returns there).
    pub wt_project_asked: bool,
    /// herdr projects for the project picker, current one first.
    pub wt_projects: Vec<RepoProject>,
    pub wt_projects_loading: bool,
    /// Checkouts of `wt_repo`.
    pub wt_worktrees: Vec<RepoWorktree>,
    pub wt_worktrees_loading: bool,
    /// Branch rendered from `[worktree].branch` for the selected issue.
    pub wt_default_branch: String,
    /// The agent picker was reached from an existing worktree.
    pub wt_existing: bool,
    /// Worktree name being edited.
    pub wt_name_input: String,
    /// Branch the agent picker opens.
    pub wt_branch: String,
}

pub struct App {
    pub cfg: Config,
    pub env: AppEnv,
    /// A Jira client could be made from `cfg`.
    pub has_client: bool,
    /// Work queued for the caller, oldest first.
    pub actions: Vec<Action>,
    /// Wall-clock seconds of the event being handled, set by the caller.
    pub clock_secs: u64,
    /// What is on screen.
    pub view: Screen,
    pub should_quit: bool,
    /// Config or auth error shown full-screen.
    pub fatal: Option<String>,
    /// Shared selection index of the popup pickers.
    pub picker_sel: usize,
    pub list: ListState,
    pub detail: DetailState,
    pub transition: TransitionState,
    pub spawn: SpawnState,
    pub wt: WorktreeState,
    /// Message and whether it is an error.
    pub toast: Option<(String, bool)>,
    /// Counts the toasts shown, so the caller can time each one.
    pub toast_seq: u64,
}

pub open spec fn next_seq(n: u64) -> u64 {
    if n == u64::MAX {
        0
    } else {
        (n + 1) as u64
    }
}

/// `new` differs from `old` by a toast saying `msg`.
pub open spec fn toasted(old: App, new: App, msg: Seq<char>, is_error: bool) -> bool {
    &&& new.toast matches Some((m, e)) && m@ == msg && e == is_error
    &&& new.toast_seq == next_seq(old.toast_seq)
}

/// `new` differs from `old` by one queued action.
pub open spec fn queued(old: App, new: App) -> bool {
    new.actions@ == old.actions@.push(new.actions@.last())
}

/// The last queued action.
pub open spec fn last_action(app: App) -> Action {
    app.actions@.last()
}

pub open spec fn home_of(app: App) -> Option<Seq<char>> {
    opt_view(app.env.home)
}

/// The built-in config an app starts from before the real one is loaded.
pub open spec fn is_builtin_config(c: Config) -> bool {
    &&& c.jira.base_url@.len() == 0
    &&& c.jira.auth@ == "basic"@
    &&& c.jira.email@.len() == 0
    &&& c.jira.api_token@.len() == 0
    &&& c.jira.api_token_cmd@.len() == 0
    &&& c.jira.default_project@.len() == 0
    &&& c.jira.max_results == 50
    &&& c.filters@.len() == 0
    &&& c.search.jql@ == "text ~ \"{query}\" ORDER BY updated DESC"@
    &&& crate::config::is_default_delegate(c.delegate)
    &&& crate::config::is_default_worktree(c.worktree)
}

// ---------------------------------------------------------------------------
// rows of the issue list

impl App {
    /// How many children of top-level issue `i` are shown below it.
    pub open spec fn kids_shown(self, i: int) -> nat {
        let issue = self.list.issues@[i];
        if epic(issue) && self.list.expanded.has(issue.key@) {
            match self.list.children.lookup(issue.key@) {
                Some(kids) => kids@.len(),
                None => 0,
            }
        } else {
            0
        }
    }

    pub open spec fn rows_upto(self, n: nat) -> Seq<Row>
        decreases n,
    {
        if n == 0 {
            Seq::empty()
        } else {
            let i = (n - 1) as nat;
            self.rows_upto(i) + seq![Row { top: i as usize, child: None }] + Seq::new(
                self.kids_shown(i as int),
                |j: int| Row { top: i as usize, child: Some(j as usize) },
            )
        }
    }

    /// Rows on screen: top-level issues, with the children of every expanded
    /// epic inlined right below it.
    pub open spec fn rows(self) -> Seq<Row> {
        self.rows_upto(self.list.issues@.len())
    }

    /// `r` names an issue of this app.
    pub open spec fn row_ok(self, r: Row) -> bool {
        &&& r.top < self.list.issues@.len()
        &&& match r.child {
            None => true,
            Some(c) => c < self.kids_shown(r.top as int),
        }
    }

    pub open spec fn issue_at(self, r: Row) -> Issue {
        match r.child {
            None => self.list.issues@[r.top as int],
            Some(c) => self.list.children.lookup(self.list.issues@[r.top as int].key@)->0@[c as int],
        }
    }

    /// The selected issue, if the selection is on a row.
    pub open spec fn selection(self) -> Option<Issue> {
        if self.list.selected < self.rows().len() {
            Some(self.issue_at(self.rows()[self.list.selected as int]))
        } else {
            None
        }
    }

    /// Rows currently on screen.
    pub fn visible(&self) -> (r: Vec<Row>)
        ensures
            r@ == self.rows(),
            forall|k: int| 0 <= k < r@.len() ==> self.row_ok(#[trigger] r@[k]),
    {
        let mut out: Vec<Row> = Vec::new();
        let mut i: usize = 0;
        while i < self.list.issues.len()
            invariant
                i <= self.list.issues.len(),
                out@ == self.rows_upto(i as nat),
                forall|k: int| 0 <= k < out@.len() ==> self.row_ok(#[trigger] out@[k]),
            decreases self.list.issues.len() - i,
        {
            let ghost before = out@;
            out.push(Row { top: i, child: None });
            let issue = &self.list.issues[i];
            let mut shown: usize = 0;
            if is_epic(issue) && self.list.expanded.contains(issue.key.as_str()) {
                match self.list.children.get(issue.key.as_str()) {
                    Some(kids) => {
                        let mut j: usize = 0;
                        while j < kids.len()
                            invariant
                                j <= kids.len(),
                                kids@.len() == self.kids_shown(i as int),
                                out@ == before + seq![Row { top: i, child: None }] + Seq::new(
                                    j as nat,
                                    |m: int| Row { top: i, child: Some(m as usize) },
                                ),
                                i < self.list.issues.len(),
                                forall|k: int| 0 <= k < out@.len() ==> self.row_ok(#[trigger] out@[k]),
                            decreases kids.len() - j,
                        {
                            out.push(Row { top: i, child: Some(j) });
                            j += 1;
                            assert(out@ =~= before + seq![Row { top: i, child: None }] + Seq::new(
                                j as nat,
                                |m: int| Row { top: i, child: Some(m as usize) },
                            ));
                        }
                        shown = j;
                    },
                    None => {},
                }
            }
            assert(shown == self.kids_shown(i as int));
            assert(out@ =~= self.rows_upto((i + 1) as nat));
            i += 1;
        }
        out
    }

    /// The issue of row `r`.
    pub fn row_issue(&self, r: Row) -> (issue: &Issue)
        requires
            self.row_ok(r),
        ensures
            *issue == self.issue_at(r),
    {
        let top = &self.list.issues[r.top];
        match r.child {
            None => top,
            Some(c) => match self.list.children.get(top.key.as_str()) {
                Some(kids) => &kids[c],
                None => top,
            },
        }
    }

    pub fn selected_issue(&self) -> (r: Option<&Issue>)
        ensures
            match r {
                Some(i) => self.selection() == Some(*i),
                None => self.selection() is None,
            },
    {
        let rows = self.visible();
        if self.list.selected < rows.len() {
            Some(self.row_issue(rows[self.list.selected]))
        } else {
            None
        }
    }

    /// The key of the selected issue, empty when nothing is selected (shown
    /// in the worktree wizard's titles).
    pub fn worktree_issue_key(&self) -> (r: String)
        ensures
            r@ == match self.selection() {
                Some(i) => i.key@,
                None => Seq::empty(),
            },
    {
        match self.selected_issue() {
            Some(i) => i.key.clone(),
            None => String::new(),
        }
    }

    /// Show `msg` as a toast.
    pub fn toast(&mut self, msg: String, is_error: bool)
        ensures
            *final(self) == (App {
                toast: Some((msg, is_error)),
                toast_seq: next_seq(old(self).toast_seq),
                ..*old(self)
            }),
    {
        self.toast = Some((msg, is_error));
        self.toast_seq = if self.toast_seq == u64::MAX {
            0
        } else {
            self.toast_seq + 1
        };
    }

    /// Queue `a` for the caller.
    pub fn queue(&mut self, a: Action)
        ensures
            *final(self) == (App { actions: final(self).actions, ..*old(self) }),
            final(self).actions@ == old(self).actions@.push(a),
    {
        self.actions.push(a);
    }

    /// Hand the queued work to the caller.
    pub fn take_actions(&mut self) -> (r: Vec<Action>)
        ensures
            r@ == old(self).actions@,
            final(self).actions@.len() == 0,
            *final(self) == (App { actions: final(self).actions, ..*old(self) }),
    {
        let mut r: Vec<Action> = Vec::new();
        std::mem::swap(&mut r, &mut self.actions);
        r
    }
}

/// A new app before its config is loaded: the built-in config, no client,
/// the empty list, nothing queued.
pub open spec fn is_fresh(app: App, env: AppEnv) -> bool {
    &&& is_builtin_config(app.cfg)
    &&& app.env == env
    &&& !app.has_client
    &&& app.actions@.len() == 0
    &&& app.clock_secs == 0
    &&& app.view == Screen::List
    &&& !app.should_quit
    &&& app.list.issues@.len() == 0
    &&& forall|k: Seq<char>|
        #![trigger app.list.children.lookup(k)]
        #![trigger app.list.expanded.has(k)]
        #![trigger app.list.loading_children.has(k)]
        #![trigger app.detail.comments.lookup(k)]
        #![trigger app.detail.comments_loading.has(k)]
        #![trigger app.detail.comments_err.lookup(k)]
        app.list.children.lookup(k) is None && !app.list.expanded.has(k) && !app.list.loading_children.has(k)
            && app.detail.comments.lookup(k) is None && !app.detail.comments_loading.has(k)
            && app.detail.comments_err.lookup(k) is None
    &&& app.list.selected == 0
    &&& app.list.current_title@.len() == 0
    &&& !app.list.loading
    &&& app.fatal is None
    &&& app.list.filter_idx == 0
    &&& app.picker_sel == 0
    &&& app.transition.transitions@.len() == 0
    &&& app.transition.transitions_for@.len() == 0
    &&& !app.transition.transitions_loading
    &&& app.spawn.agents@.len() == 0
    &&& !app.spawn.agents_loading
    &&& app.spawn.pending_spawn is None
    &&& app.spawn.pending_workspace is None
    &&& app.spawn.workspaces@.len() == 0
    &&& !app.spawn.workspaces_loading
    &&& app.spawn.cwd_choices@.len() == 0
    &&& app.spawn.cwd_input@.len() == 0
    &&& app.wt.wt_repo@.len() == 0
    &&& app.wt.wt_repo_name@.len() == 0
    &&& !app.wt.wt_project_asked
    &&& app.wt.wt_projects@.len() == 0
    &&& !app.wt.wt_projects_loading
    &&& app.wt.wt_worktrees@.len() == 0
    &&& !app.wt.wt_worktrees_loading
    &&& app.wt.wt_default_branch@.len() == 0
    &&& !app.wt.wt_existing
    &&& app.wt.wt_name_input@.len() == 0
    &&& app.wt.wt_branch@.len() == 0
    &&& app.list.search_input@.len() == 0
    &&& app.list.jql_input@.len() == 0
    &&& app.list.last_jql@.len() == 0
    &&& app.detail.detail_scroll == 0
    &&& app.detail.comment_scroll == 0
    &&& !app.detail.detail_focus_comments
    &&& app.toast is None
    &&& app.toast_seq == 0
}

/// What a config load does to the app.
pub open spec fn config_reloaded(old: App, new: App, loaded: ConfigLoad) -> bool {
    match loaded {
        ConfigLoad::Failed(e) => new == (App { fatal: Some(e), ..old }),
        ConfigLoad::NoClient(cfg, e) => new == (App { cfg: cfg, fatal: Some(e), ..old }),
        ConfigLoad::Ready(cfg) => {
            let n = cfg.filters@.len();
            let idx: usize = if n == 0 {
                0
            } else if old.list.filter_idx < n {
                old.list.filter_idx
            } else {
                (n - 1) as usize
            };
            let mid = App {
                cfg: cfg,
                has_client: true,
                fatal: None,
                list: ListState { filter_idx: idx, ..old.list },
                ..old
            };
            if idx < n {
                crate::pane::flow::searched(
                    mid,
                    new,
                    crate::pane::flow::expand(cfg, cfg.filters@[idx as int].jql@),
                    cfg.filters@[idx as int].name@,
                )
            } else {
                new == mid
            }
        },
    }
}

impl App {
    /// Empty state with the built-in default config.
    pub fn unloaded(env: AppEnv) -> (app: App)
        ensures
            is_fresh(app, env),
    {
        App {
            cfg: Config {
                jira: JiraConfig {
                    base_url: String::new(),
                    auth: owned("basic"),
                    email: String::new(),
                    api_token: String::new(),
                    api_token_cmd: String::new(),
                    default_project: String::new(),
                    max_results: 50,
                },
                filters: Vec::new(),
                search: SearchConfig::default(),
                delegate: DelegateConfig::default(),
                worktree: WorktreeConfig::default(),
            },
            env: env,
            has_client: false,
            actions: Vec::new(),
            clock_secs: 0,
            view: Screen::List,
            should_quit: false,
            fatal: None,
            picker_sel: 0,
            toast: None,
            toast_seq: 0,
            list: ListState {
                issues: Vec::new(),
                children: KeyMap::new(),
                expanded: KeySet::new(),
                loading_children: KeySet::new(),
                selected: 0,
                current_title: String::new(),
                loading: false,
                filter_idx: 0,
                search_input: String::new(),
                jql_input: String::new(),
                last_jql: String::new(),
            },
            detail: DetailState {
                detail_scroll: 0,
                comments: KeyMap::new(),
                comments_loading: KeySet::new(),
                comments_err: KeyMap::new(),
                comment_scroll: 0,
                detail_focus_comments: false,
            },
            transition: TransitionState {
                transitions: Vec::new(),
                transitions_for: String::new(),
                transitions_loading: false,
            },
            spawn: SpawnState {
                agents: Vec::new(),
                agents_loading: false,
                pending_spawn: None,
                pending_workspace: None,
                workspaces: Vec::new(),
                workspaces_loading: false,
                cwd_choices: Vec::new(),
                cwd_input: String::new(),
            },
            wt: WorktreeState {
                wt_repo: String::new(),
                wt_repo_name: String::new(),
                wt_project_asked: false,
                wt_projects: Vec::new(),
                wt_projects_loading: false,
                wt_worktrees: Vec::new(),
                wt_worktrees_loading: false,
                wt_default_branch: String::new(),
                wt_existing: false,
                wt_name_input: String::new(),
                wt_branch: String::new(),
            },
        }
    }

    /// Take a freshly loaded config: with a client the current filter is
    /// loaded; without one, or when loading failed, the error is shown
    /// full-screen.
    pub fn reload_config(&mut self, loaded: ConfigLoad)
        ensures
            config_reloaded(*old(self), *final(self), loaded),
    {
        match loaded {
            ConfigLoad::Failed(e) => {
                self.fatal = Some(e);
            },
            ConfigLoad::NoClient(cfg, e) => {
                self.cfg = cfg;
                self.fatal = Some(e);
            },
            ConfigLoad::Ready(cfg) => {
                self.cfg = cfg;
                self.has_client = true;
                self.fatal = None;
                let n = self.cfg.filters.len();
                self.list.filter_idx = if n == 0 {
                    0
                } else if self.list.filter_idx < n {
                    self.list.filter_idx
                } else {
                    n - 1
                };
                let idx = self.list.filter_idx;
                self.load_filter(idx);
            },
        }
    }

    /// A new app with the config as loaded.
    pub fn new(env: AppEnv, loaded: ConfigLoad) -> (app: App)
        ensures
            exists|fresh: App| is_fresh(fresh, env) && config_reloaded(fresh, app, loaded),
    {
        let mut app = App::unloaded(env);
        let ghost fresh = app;
        app.reload_config(loaded);
        assert(is_fresh(fresh, env) && config_reloaded(fresh, app, loaded));
        app
    }
}

} // verus!

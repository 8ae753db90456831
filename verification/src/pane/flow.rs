//! What the browser asks for: searches, transitions, comments, epic
//! children, agents and the worktree wizard's listings.

use vstd::prelude::*;
use crate::config::{Config, SpawnAgent};
use crate::herdr::{HerdrAgent, HerdrWorkspace, RepoProject, StartAgentOpts, WorktreeOpts};
use crate::issue::{Issue, Transition, build_prompt, epic, is_epic, prompt_text};
use crate::naming::{expand_path, expanded};
use crate::pane::{
    Action, App, AppEnv, DetailState, ListState, Row, Screen, SpawnState, TransitionState, WorktreeState,
    last_action, next_seq, queued, toasted,
};
use crate::text::{
    append, chars_of, owned, push_str, push_string, replace_all, replace_str, string_of, trim_vec,
    trim_ws,
};

verus! {

/// `{project}` expanded in a JQL template.
pub open spec fn expand(cfg: Config, template: Seq<char>) -> Seq<char> {
    replace_all(template, "{project}"@, cfg.jira.default_project@)
}

/// A search for `jql` titled `title` was started: it needs a Jira client.
pub open spec fn searched(old: App, new: App, jql: Seq<char>, title: Seq<char>) -> bool {
    if old.has_client {
        &&& new == (App {
            actions: new.actions,
            list: ListState { last_jql: new.list.last_jql, loading: true, ..old.list },
            ..old
        })
        &&& new.list.last_jql@ == jql
        &&& queued(old, new)
        &&& last_action(new) matches Action::Search { jql: j, title: t } && j@ == jql && t@ == title
    } else {
        new == old
    }
}

/// The search text as it goes into `{query}`: `"` escaped.
pub open spec fn quoted_query(query: Seq<char>) -> Seq<char> {
    replace_all(query, "\""@, "\\\""@)
}

pub open spec fn search_jql(cfg: Config, query: Seq<char>) -> Seq<char> {
    replace_all(expand(cfg, cfg.search.jql@), "{query}"@, quoted_query(query))
}

pub open spec fn children_jql(key: Seq<char>) -> Seq<char> {
    "parent = "@ + key + " ORDER BY created ASC"@
}

pub open spec fn epic_link_jql(key: Seq<char>) -> Seq<char> {
    "\"Epic Link\" = "@ + key + " ORDER BY created ASC"@
}

fn text3(a: &str, b: &String, c: &str) -> (r: String)
    ensures
        r@ == a@ + b@ + c@,
{
    let mut m = chars_of(a);
    push_string(&mut m, b);
    push_str(&mut m, c);
    string_of(&m)
}

fn text4(b: &String, c: &str, d: &String, e: &str) -> (r: String)
    ensures
        r@ == b@ + c@ + d@ + e@,
{
    let mut m: Vec<char> = Vec::new();
    push_string(&mut m, b);
    push_str(&mut m, c);
    push_string(&mut m, d);
    push_str(&mut m, e);
    string_of(&m)
}

pub fn copy_transition(t: &Transition) -> (r: Transition)
    ensures
        r == *t,
{
    Transition { id: t.id.clone(), name: t.name.clone(), to_status: t.to_status.clone() }
}

pub open spec fn filter_loaded(old: App, new: App, idx: usize) -> bool {
    &&& (idx >= old.cfg.filters@.len() ==> new == old)
    &&& (idx < old.cfg.filters@.len() ==> searched(
                App { list: ListState { filter_idx: idx, ..old.list }, ..old },
                new,
                expand(old.cfg, old.cfg.filters@[idx as int].jql@),
                old.cfg.filters@[idx as int].name@,
            ))
}

pub open spec fn search_run(old: App, new: App, query: String) -> bool {
    &&& (searched(
                old,
                new,
                search_jql(old.cfg, query@),
                "search: "@ + query@,
            ))
}

pub open spec fn transitions_requested(old: App, new: App) -> bool {
    &&& (old.selection() is None || !old.has_client ==> new == old)
    &&& (old.selection() is Some && old.has_client ==> {
                let key = old.selection()->0.key;
                &&& new == (App {
                    picker_sel: 0,
                    view: Screen::TransitionPicker,
                    actions: new.actions,
                    transition: TransitionState {
                        transitions_for: key,
                        transitions: new.transition.transitions,
                        transitions_loading: true,
                        ..old.transition
                    },
                    ..old
                })
                &&& new.transition.transitions@.len() == 0
                &&& queued(old, new)
                &&& last_action(new) matches Action::FetchTransitions { key: k } && k == key
            })
}

pub open spec fn transition_applied(old: App, new: App, t: Transition) -> bool {
    &&& (!old.has_client ==> new == old)
    &&& (old.has_client ==> {
                let key = old.transition.transitions_for;
                let mid = App { toast: new.toast, toast_seq: new.toast_seq, ..old };
                &&& toasted(old, mid, key@ + ": applying \""@ + t.name@ + "\"…"@, false)
                &&& new == (App { actions: new.actions, ..mid })
                &&& queued(mid, new)
                &&& last_action(new) matches Action::ApplyTransition {
                    key: k,
                    transition_id: id,
                    to_status: to,
                } && k == key && id == t.id && to == t.to_status
            })
}

pub open spec fn comments_fetched(old: App, new: App, key: String) -> bool {
    &&& (({
                let skip = old.detail.comments.lookup(key@) is Some || old.detail.comments_err.lookup(
                    key@,
                ) is Some || old.detail.comments_loading.has(key@) || !old.has_client;
                &&& skip ==> new == old
                &&& !skip ==> new == (App {
                    actions: new.actions,
                    detail: DetailState { comments_loading: new.detail.comments_loading, ..old.detail },
                    ..old
                }) && new.detail.comments_loading.has(key@) && (forall|j: Seq<char>|
                    j != key@ ==> #[trigger] new.detail.comments_loading.has(j)
                        == old.detail.comments_loading.has(j)) && queued(old, new)
                    && (last_action(new) matches Action::FetchComments { key: k } && k@
                    == key@)
            }))
}

pub open spec fn epic_expanded(old: App, new: App) -> bool {
    &&& (({
                let sel = old.selection();
                let key = sel->0.key@;
                &&& (sel is None || !epic(sel->0) || old.list.expanded.has(key)) ==> new
                    == old
                // children already known: just open it
                &&& sel is Some && epic(sel->0) && !old.list.expanded.has(key)
                    && old.list.children.lookup(key) is Some ==> new == (App {
                        list: ListState { expanded: new.list.expanded, ..old.list },
                        ..old
                    }) && new.list.expanded.has(key) && (forall|j: Seq<char>|
                    j != key ==> #[trigger] new.list.expanded.has(j) == old.list.expanded.has(j))
                // otherwise fetch them, once, with a Jira client
                &&& sel is Some && epic(sel->0) && !old.list.expanded.has(key)
                    && old.list.children.lookup(key) is None && (!old.has_client
                    || old.list.loading_children.has(key)) ==> new == old
                &&& sel is Some && epic(sel->0) && !old.list.expanded.has(key)
                    && old.list.children.lookup(key) is None && old.has_client
                    && !old.list.loading_children.has(key) ==> {
                    let mid = App {
                        toast: new.toast,
                        toast_seq: new.toast_seq,
                        list: ListState { loading_children: new.list.loading_children, ..old.list },
                        ..old
                    };
                    &&& new.list.loading_children.has(key)
                    &&& forall|j: Seq<char>|
                        j != key ==> #[trigger] new.list.loading_children.has(j)
                            == old.list.loading_children.has(j)
                    &&& toasted(old, mid, "loading issues in "@ + key + "…"@, false)
                    &&& new == (App { actions: new.actions, ..mid })
                    &&& queued(mid, new)
                    &&& last_action(new) matches Action::SearchChildren {
                        epic: e,
                        jql: q,
                        fallback: f,
                    } && e@ == key && q@ == children_jql(key) && f@ == epic_link_jql(key)
                }
            }))
}

pub open spec fn epic_collapsed(old: App, new: App) -> bool {
    &&& (epic_to_close(old) is None ==> new == old)
    &&& (epic_to_close(old) matches Some(key) ==> {
                let mid = App { list: ListState { expanded: new.list.expanded, ..old.list }, ..old };
                let pos = first_key_row(mid, key, 0);
                &&& !new.list.expanded.has(key)
                &&& forall|j: Seq<char>|
                    j != key ==> #[trigger] new.list.expanded.has(j) == old.list.expanded.has(j)
                &&& new == (App { list: ListState { selected: new.list.selected, ..mid.list }, ..mid })
                &&& pos < mid.rows().len() ==> new.list.selected == pos
                &&& pos >= mid.rows().len() ==> new.list.selected == old.list.selected
            })
}

pub open spec fn agents_requested(old: App, new: App) -> bool {
    &&& (old.selection() is None ==> new == old)
    &&& (old.selection() is Some ==> new == (App {
        picker_sel: 0,
        view: Screen::AgentPicker,
        actions: new.actions,
        spawn: SpawnState {
            agents: new.spawn.agents,
            agents_loading: true,
            pending_spawn: None,
            ..old.spawn
        },
        ..old
    }) && new.spawn.agents@.len() == 0 && queued(old, new)
                && last_action(new) is ListAgents)
}

pub open spec fn type_picker_opened(old: App, new: App) -> bool {
    &&& (old.cfg.delegate.agents@.len() == 0 ==> toasted(
                old,
                new,
                "no [[delegate.agents]] configured — add agents in config.toml"@,
                true,
            ) && new == (App {
                toast: new.toast,
                toast_seq: new.toast_seq,
                ..old
            }))
    &&& (old.cfg.delegate.agents@.len() > 0 ==> new == (App {
        picker_sel: 0,
        view: Screen::NewAgentTypePicker,
        spawn: SpawnState { pending_spawn: None, pending_workspace: None, ..old.spawn },
        ..old
    }))
}

pub open spec fn workspace_picker_opened(old: App, new: App, spawn: SpawnAgent) -> bool {
    &&& (new.spawn.pending_spawn matches Some(sp) && sp.name == spawn.name && sp.command@ == spawn.command@)
    &&& (new == (App {
        picker_sel: 0,
        view: Screen::NewAgentWorkspacePicker,
        actions: new.actions,
        spawn: SpawnState {
            pending_spawn: new.spawn.pending_spawn,
            pending_workspace: None,
            workspaces: new.spawn.workspaces,
            workspaces_loading: true,
            ..old.spawn
        },
        ..old
    }))
    &&& (new.spawn.workspaces@.len() == 0)
    &&& (queued(old, new))
    &&& (last_action(new) is ListWorkspaces)
}

pub open spec fn cwd_picker_opened(old: App, new: App) -> bool {
    &&& (new == (App {
        picker_sel: 0,
        view: Screen::NewAgentCwdPicker,
        spawn: SpawnState { cwd_choices: new.spawn.cwd_choices, ..old.spawn },
        ..old
    }))
    &&& (crate::pane::paths::cwd_choices_for(
                old.cfg,
                old.spawn.agents@,
                old.env,
                crate::text::views(new.spawn.cwd_choices@),
            ))
}

pub open spec fn cwd_input_opened(old: App, new: App) -> bool {
    &&& (new == (App {
        view: Screen::NewAgentCwdInput,
        spawn: SpawnState { cwd_input: new.spawn.cwd_input, ..old.spawn },
        ..old
    }))
    &&& (new.spawn.cwd_input@ == (if trim_ws(old.cfg.delegate.default_cwd@).len() > 0 {
                old.cfg.delegate.default_cwd@
            } else if old.spawn.cwd_choices@.len() > 0 {
                old.spawn.cwd_choices@[0]@
            } else {
                home_text(old.env)
            }))
}

pub open spec fn delegated_to(old: App, new: App, agent: HerdrAgent) -> bool {
    &&& (old.selection() is None ==> new == old)
    &&& (old.selection() matches Some(issue) ==> {
                let mid = with_toast(old, new);
                &&& toasted(
                    old,
                    mid,
                    "sending "@ + issue.key@ + " to "@ + agent.label@ + "…"@,
                    false,
                )
                &&& new == (App { actions: new.actions, ..mid })
                &&& queued(mid, new)
                &&& last_action(new) matches Action::SendToAgent {
                    key,
                    agent: a,
                    text,
                    submit,
                    submit_delay_ms,
                } && key@ == issue.key@ && a == agent && text@ == prompt_for(old.cfg, issue)
                    && submit == old.cfg.delegate.submit && submit_delay_ms
                    == old.cfg.delegate.submit_delay_ms
            })
}

pub open spec fn new_agent_started(old: App, new: App, cwd_raw: String) -> bool {
    &&& (({
                let cwd = expanded(cwd_raw@, crate::pane::home_of(old));
                started_new(old, new, cwd, true) || started_new(
                    old,
                    new,
                    cwd,
                    false,
                )
            }))
}

pub open spec fn worktree_opened(old: App, new: App) -> bool {
    &&& (old.selection() is None ==> new == old)
    &&& (old.selection() matches Some(issue) ==> {
                let pre = App {
                    wt: WorktreeState {
                        wt_default_branch: new.wt.wt_default_branch,
                        wt_existing: false,
                        ..old.wt
                    },
                    ..old
                };
                &&& new.wt.wt_default_branch@ == crate::branch::sanitized(
                    crate::naming::issue_filled(old.cfg.worktree.branch@, issue),
                )
                &&& repo_opened(pre, new, configured_repo(old.cfg, issue.key@))
            })
}

/// With the repo from `[worktree]` (`configured`), or without one: the
/// repo's worktree list, or the project picker.
pub open spec fn repo_opened(old: App, new: App, configured: Option<Seq<char>>) -> bool {
    match configured {
        None => projects_requested(App { wt: WorktreeState { wt_project_asked: true, ..old.wt }, ..old }, new),
        Some(raw) => exists|r: Result<Seq<char>, Seq<char>>|
            resolves(raw, crate::pane::home_of(old), r) && #[trigger] repo_chosen(
                App { wt: WorktreeState { wt_project_asked: false, ..old.wt }, ..old },
                new,
                r,
                "worktree repo: "@,
                None,
            ),
    }
}

pub open spec fn repo_used(old: App, new: App, resolved: Result<String, String>, prefix: Seq<char>, name: Option<String>) -> bool {
    &&& (repo_chosen(
                old,
                new,
                result_view(resolved),
                prefix,
                crate::naming::opt_view(name),
            ))
}

pub open spec fn back_to_projects(old: App, new: App) -> bool {
    &&& (new == (App {
        picker_sel: new.picker_sel,
        view: Screen::WorktreeProjectPicker,
        ..old
    }))
    &&& (new.picker_sel == project_pos(
                old.wt.wt_projects@,
                old.wt.wt_repo@,
                crate::pane::home_of(old),
            ))
}

pub open spec fn back_to_worktrees(old: App, new: App, branch: Option<Seq<char>>) -> bool {
    &&& (new == (App {
        picker_sel: new.picker_sel,
        view: Screen::WorktreeListPicker,
        ..old
    }))
    &&& (new.picker_sel == match branch {
                Some(b) => if branch_pos(old.wt.wt_worktrees@, b) < old.wt.wt_worktrees@.len() {
                    branch_pos(old.wt.wt_worktrees@, b) + 1
                } else {
                    0
                },
                None => 0,
            })
}

pub open spec fn name_input_opened(old: App, new: App) -> bool {
    &&& (new == (App {
        view: Screen::WorktreeNameInput,
        wt: WorktreeState { wt_name_input: old.wt.wt_default_branch, ..old.wt },
        ..old
    }))
}

pub open spec fn repo_input_opened(old: App, new: App) -> bool {
    &&& (new == (App {
        view: Screen::WorktreeRepoInput,
        spawn: SpawnState { cwd_input: new.spawn.cwd_input, ..old.spawn },
        ..old
    }))
    &&& (new.spawn.cwd_input@ == (if old.picker_sel < old.wt.wt_projects@.len() {
                old.wt.wt_projects@[old.picker_sel as int].root@
            } else if old.wt.wt_projects@.len() > 0 {
                old.wt.wt_projects@[0].root@
            } else {
                crate::pane::flow::home_text(old.env)
            }))
}

pub open spec fn worktree_only_opened(old: App, new: App, opts: WorktreeOpts) -> bool {
    &&& (({
                let mid = with_toast(old, new);
                &&& toasted(
                    old,
                    mid,
                    (if old.wt.wt_existing {
                        "opening"@
                    } else {
                        "creating"@
                    }) + " worktree "@ + opts.branch@ + "…"@,
                    false,
                )
                &&& new == (App { actions: new.actions, ..mid })
                &&& queued(mid, new)
                &&& last_action(new) matches Action::OpenWorktree {
                    branch,
                    repo,
                    opts: o,
                    focus,
                } && branch == opts.branch && repo == old.wt.wt_repo && o == opts && focus
                    == old.cfg.worktree.focus
            }))
}

pub open spec fn worktree_agent_started(old: App, new: App, spawn: SpawnAgent, wt: WorktreeOpts) -> bool {
    &&& (spawn.command@.len() == 0 ==> only_toast(
                old,
                new,
                spawn.name@ + ": empty command"@,
                true,
            ))
    &&& (spawn.command@.len() > 0 && old.selection() is None ==> new == old)
    &&& (spawn.command@.len() > 0 ==> (old.selection() matches Some(issue) ==> {
                let mid = with_toast(old, new);
                let d = old.cfg.delegate;
                let submit = match old.cfg.worktree.submit {
                    Some(b) => b,
                    None => d.submit,
                };
                &&& toasted(
                    old,
                    mid,
                    "starting "@ + spawn.name@ + " for "@ + issue.key@ + " (worktree "@ + wt.branch@
                        + " of "@ + crate::naming::home_short(
                        old.wt.wt_repo@,
                        home_text(old.env),
                    ) + ")…"@,
                    false,
                )
                &&& new == (App { actions: new.actions, ..mid })
                &&& queued(mid, new)
                &&& last_action(new) matches Action::StartAndDelegate {
                    key,
                    agent_label,
                    opts,
                    text,
                    submit: s,
                    submit_delay_ms,
                    startup_delay_ms,
                    wait_ready_ms,
                } && key@ == issue.key@ && agent_label == spawn.name && text@ == prompt_for(
                    old.cfg,
                    issue,
                ) && s == submit && submit_delay_ms == d.submit_delay_ms && startup_delay_ms
                    == d.startup_delay_ms && wait_ready_ms == d.wait_ready_ms && opts.name@
                    == crate::naming::name_safe(issue.key@) + "-"@ + crate::naming::name_safe(
                    spawn.name@,
                ) + "-"@ + crate::text::decimal((old.clock_secs % 10_000) as nat)
                    && opts.cwd == old.wt.wt_repo && opts.argv@ == spawn.command@
                    && opts.placement == d.placement && opts.focus == old.cfg.worktree.focus
                    && opts.workspace_id@.len() == 0 && opts.tab_label@ == issue.key@
                    && opts.worktree == Some(wt)
            }))
}

pub open spec fn zoom_toggled(old: App, new: App) -> bool {
    &&& (new == (App { actions: new.actions, ..old }))
    &&& (queued(old, new))
    &&& (last_action(new) is ToggleZoom)
}

pub open spec fn browser_opened(old: App, new: App) -> bool {
    &&& (old.selection() is None ==> new == old)
    &&& (old.selection() matches Some(issue) ==> {
                let mid = with_toast(old, new);
                &&& toasted(old, mid, "opened "@ + issue.url@, false)
                &&& new == (App { actions: new.actions, ..mid })
                &&& queued(mid, new)
                &&& last_action(new) matches Action::OpenUrl { url } && url == issue.url
            })
}

impl App {
    /// Start a search (nothing happens without a Jira client).
    pub fn spawn_search(&mut self, jql: String, title: String)
        ensures
            searched(*old(self), *final(self), jql@, title@),
    {
        if !self.has_client {
            return;
        }
        self.list.last_jql = jql.clone();
        self.list.loading = true;
        self.queue(Action::Search { jql, title });
    }

    /// Load filter `idx` (nothing happens past the last filter).
    pub fn load_filter(&mut self, idx: usize)
        ensures
            filter_loaded(*old(self), *final(self), idx),

    {
        if idx >= self.cfg.filters.len() {
            return;
        }
        self.list.filter_idx = idx;
        let jql = self.cfg.expand_jql(self.cfg.filters[idx].jql.as_str());
        let title = self.cfg.filters[idx].name.clone();
        self.spawn_search(jql, title);
    }

    /// Search for issues matching `query` with `[search].jql`.
    pub fn run_search(&mut self, query: String)
        ensures
            search_run(*old(self), *final(self), query),

    {
        proof {
            reveal_strlit("{query}");
            reveal_strlit("\"");
            reveal_strlit("\\\"");
        }
        let template = self.cfg.expand_jql(self.cfg.search.jql.as_str());
        let q = replace_str(query.as_str(), "\"", "\\\"");
        let jql = replace_str(template.as_str(), "{query}", q.as_str());
        let mut title = chars_of("search: ");
        push_string(&mut title, &query);
        self.spawn_search(jql, string_of(&title));
    }

    /// Fetch the transitions of the selected issue and show their picker.
    pub fn request_transitions(&mut self)
        ensures
            transitions_requested(*old(self), *final(self)),

    {
        let key = match self.selected_issue() {
            Some(issue) => issue.key.clone(),
            None => {
                return;
            },
        };
        if !self.has_client {
            return;
        }
        self.transition.transitions_for = key.clone();
        self.transition.transitions.clear();
        self.transition.transitions_loading = true;
        self.picker_sel = 0;
        self.view = Screen::TransitionPicker;
        self.queue(Action::FetchTransitions { key });
    }

    /// Apply `t` to the issue the transitions were fetched for.
    pub fn apply_transition(&mut self, t: &Transition)
        ensures
            transition_applied(*old(self), *final(self), *t),

    {
        if !self.has_client {
            return;
        }
        let key = self.transition.transitions_for.clone();
        let msg = text4(&key, ": applying \"", &t.name, "\"…");
        self.toast(msg, false);
        self.queue(
            Action::ApplyTransition {
                key,
                transition_id: t.id.clone(),
                to_status: t.to_status.clone(),
            },
        );
    }

    /// Fetch the comments of `key` unless cached, failed or in flight.
    pub fn fetch_comments(&mut self, key: String)
        ensures
            comments_fetched(*old(self), *final(self), key),

    {
        if self.detail.comments.contains_key(key.as_str()) || self.detail.comments_err.contains_key(key.as_str())
            || self.detail.comments_loading.contains(key.as_str()) {
            return;
        }
        if !self.has_client {
            return;
        }
        self.detail.comments_loading.insert(key.clone());
        self.queue(Action::FetchComments { key });
    }

    /// Expand the selected epic, fetching its children on first open.
    pub fn expand_epic(&mut self)
        ensures
            epic_expanded(*old(self), *final(self)),

    {
        let key = match self.selected_epic() {
            Some(k) => k,
            None => {
                return;
            },
        };
        if self.list.expanded.contains(key.as_str()) {
            return;
        }
        if self.list.children.contains_key(key.as_str()) {
            self.list.expanded.insert(key);
            return;
        }
        self.fetch_children(key);
    }

    /// The key of the selected issue when it is an epic.
    pub fn selected_epic(&self) -> (r: Option<String>)
        ensures
            match r {
                Some(k) => self.selection() is Some && epic(self.selection()->0) && k
                    == self.selection()->0.key,
                None => self.selection() is None || !epic(self.selection()->0),
            },
    {
        match self.selected_issue() {
            Some(issue) => if is_epic(issue) {
                Some(issue.key.clone())
            } else {
                None
            },
            None => None,
        }
    }

    /// Fetch the children of epic `key`, once, with a Jira client.
    fn fetch_children(&mut self, key: String)
        ensures
            !old(self).has_client || old(self).list.loading_children.has(key@) ==> *final(self)
                == *old(self),
            old(self).has_client && !old(self).list.loading_children.has(key@) ==> {
                let mid = App {
                    toast: final(self).toast,
                    toast_seq: final(self).toast_seq,
                    list: ListState {
                        loading_children: final(self).list.loading_children,
                        ..(*old(self)).list
                    },
                    ..*old(self)
                };
                &&& final(self).list.loading_children.has(key@)
                &&& forall|j: Seq<char>|
                    j != key@ ==> #[trigger] final(self).list.loading_children.has(j)
                        == old(self).list.loading_children.has(j)
                &&& toasted(*old(self), mid, "loading issues in "@ + key@ + "…"@, false)
                &&& *final(self) == (App { actions: final(self).actions, ..mid })
                &&& queued(mid, *final(self))
                &&& last_action(*final(self)) matches Action::SearchChildren {
                    epic: e,
                    jql: q,
                    fallback: f,
                } && e@ == key@ && q@ == children_jql(key@) && f@ == epic_link_jql(key@)
            },
    {
        if !self.has_client {
            return;
        }
        if !self.list.loading_children.insert(key.clone()) {
            return;
        }
        self.toast(text3("loading issues in ", &key, "…"), false);
        let jql = text3("parent = ", &key, " ORDER BY created ASC");
        let fallback = text3("\"Epic Link\" = ", &key, " ORDER BY created ASC");
        self.queue(Action::SearchChildren { epic: key, jql, fallback });
    }
}

/// The first row from `from` on whose issue has key `key` (`rows().len()`
/// when none has).
pub open spec fn first_key_row(app: App, key: Seq<char>, from: int) -> int
    decreases app.rows().len() - from,
{
    if from < 0 || from >= app.rows().len() {
        app.rows().len() as int
    } else if app.issue_at(app.rows()[from]).key@ == key {
        from
    } else {
        first_key_row(app, key, from + 1)
    }
}

/// The epic row `collapse_epic` closes: the selected row when it is an open
/// epic, else the epic of the selected child row.
pub open spec fn epic_to_close(app: App) -> Option<Seq<char>> {
    if app.list.selected >= app.rows().len() {
        None
    } else {
        let r = app.rows()[app.list.selected as int];
        let top = app.list.issues@[r.top as int];
        if r.child is None && !(epic(top) && app.list.expanded.has(top.key@)) {
            None
        } else {
            Some(top.key@)
        }
    }
}

impl App {
    /// Collapse the selected epic, or, on a child row, its epic; the
    /// selection lands on the epic's row.
    pub fn collapse_epic(&mut self)
        ensures
            epic_collapsed(*old(self), *final(self)),

    {
        let rows = self.visible();
        if self.list.selected >= rows.len() {
            return;
        }
        let r = rows[self.list.selected];
        assert(self.row_ok(r));
        let top = &self.list.issues[r.top];
        let key = top.key.clone();
        if r.child.is_none() && !(is_epic(top) && self.list.expanded.contains(top.key.as_str())) {
            return;
        }
        self.list.expanded.remove(key.as_str());
        let ghost mid = *self;
        let want = chars_of(key.as_str());
        let rows2 = self.visible();
        let mut k: usize = 0;
        while k < rows2.len()
            invariant
                *self == mid,
                epic_to_close(*old(self)) == Some(key@),
                mid == (App {
                    list: ListState { expanded: mid.list.expanded, ..(*old(self)).list },
                    ..*old(self)
                }),
                !mid.list.expanded.has(key@),
                forall|j: Seq<char>| j != key@ ==> #[trigger] mid.list.expanded.has(j) == old(self).list.expanded.has(j),
                rows2@ == mid.rows(),
                forall|m: int| 0 <= m < rows2@.len() ==> mid.row_ok(#[trigger] rows2@[m]),
                want@ == key@,
                k <= rows2.len(),
                first_key_row(mid, key@, 0) == first_key_row(mid, key@, k as int),
            decreases rows2.len() - k,
        {
            let issue = self.row_issue(rows2[k]);
            if crate::branch::vec_equal(&chars_of(issue.key.as_str()), &want) {
                self.list.selected = k;
                return;
            }
            k += 1;
        }
    }

    /// Rows in the agent picker: "start new" first when agents are configured.
    pub fn can_start_new_agent(&self) -> (b: bool)
        ensures
            b == (self.cfg.delegate.agents@.len() > 0),
    {
        self.cfg.delegate.agents.len() > 0
    }

    /// Index of the first running-agent row in the agent picker.
    pub fn agent_list_offset(&self) -> (r: usize)
        ensures
            r == (if self.cfg.delegate.agents@.len() > 0 {
                1usize
            } else {
                0usize
            }),
    {
        if self.can_start_new_agent() {
            1
        } else {
            0
        }
    }

    pub fn agent_picker_len(&self) -> (r: usize)
        requires
            self.spawn.agents@.len() < usize::MAX,
        ensures
            r == self.spawn.agents@.len() + (if self.cfg.delegate.agents@.len() > 0 {
                1int
            } else {
                0int
            }),
    {
        self.agent_list_offset() + self.spawn.agents.len()
    }

    /// List the running agents and show the agent picker.
    pub fn request_agents(&mut self)
        ensures
            agents_requested(*old(self), *final(self)),

    {
        if self.selected_issue().is_none() {
            return;
        }
        self.spawn.agents.clear();
        self.spawn.agents_loading = true;
        self.picker_sel = 0;
        self.spawn.pending_spawn = None;
        self.view = Screen::AgentPicker;
        self.queue(Action::ListAgents);
    }

    /// The agent-type picker of the "start new" wizard.
    pub fn open_new_agent_type_picker(&mut self)
        ensures
            type_picker_opened(*old(self), *final(self)),

    {
        if self.cfg.delegate.agents.len() == 0 {
            self.toast(owned("no [[delegate.agents]] configured — add agents in config.toml"), true);
            return;
        }
        self.picker_sel = 0;
        self.spawn.pending_spawn = None;
        self.spawn.pending_workspace = None;
        self.view = Screen::NewAgentTypePicker;
    }

    /// After the agent type: list the workspaces and show their picker.
    pub fn open_new_agent_workspace_picker(&mut self, spawn: SpawnAgent)
        ensures
            workspace_picker_opened(*old(self), *final(self), spawn),

    {
        self.spawn.pending_spawn = Some(spawn);
        self.spawn.pending_workspace = None;
        self.spawn.workspaces.clear();
        self.spawn.workspaces_loading = true;
        self.picker_sel = 0;
        self.view = Screen::NewAgentWorkspacePicker;
        self.queue(Action::ListWorkspaces);
    }
}

pub fn copy_strings(v: &Vec<String>) -> (r: Vec<String>)
    ensures
        r@ == v@,
{
    let mut r: Vec<String> = Vec::new();
    let mut i: usize = 0;
    while i < v.len()
        invariant
            i <= v.len(),
            r@ == v@.take(i as int),
        decreases v.len() - i,
    {
        r.push(v[i].clone());
        assert(r@ =~= v@.take(i + 1));
        i += 1;
    }
    assert(v@.take(v.len() as int) =~= v@);
    r
}

pub fn copy_spawn(a: &SpawnAgent) -> (r: SpawnAgent)
    ensures
        r.name == a.name,
        r.command@ == a.command@,
{
    SpawnAgent { name: a.name.clone(), command: copy_strings(&a.command) }
}

pub fn copy_agent(a: &HerdrAgent) -> (r: HerdrAgent)
    ensures
        r == *a,
{
    HerdrAgent {
        target: a.target.clone(),
        label: a.label.clone(),
        status: a.status.clone(),
        cwd: a.cwd.clone(),
        pane_id: a.pane_id.clone(),
    }
}

pub fn copy_workspace(w: &HerdrWorkspace) -> (r: HerdrWorkspace)
    ensures
        r == *w,
{
    HerdrWorkspace {
        id: w.id.clone(),
        label: w.label.clone(),
        number: w.number,
        focused: w.focused,
        tab_count: w.tab_count,
        pane_count: w.pane_count,
        agent_status: w.agent_status.clone(),
        repo: match &w.repo {
            Some(r) => Some(
                crate::herdr::WorkspaceRepo {
                    repo_key: r.repo_key.clone(),
                    repo_name: r.repo_name.clone(),
                    repo_root: r.repo_root.clone(),
                    checkout_path: r.checkout_path.clone(),
                    is_linked_worktree: r.is_linked_worktree,
                },
            ),
            None => None,
        },
    }
}

/// `new` differs from `old` only by a toast saying `msg`.
pub open spec fn only_toast(old: App, new: App, msg: Seq<char>, is_error: bool) -> bool {
    &&& toasted(old, new, msg, is_error)
    &&& new == (App { toast: new.toast, toast_seq: new.toast_seq, ..old })
}

/// `old` with a toast saying `msg`.
pub open spec fn with_toast(old: App, new: App) -> App {
    App { toast: new.toast, toast_seq: new.toast_seq, ..old }
}

/// The prompt for `issue` under `cfg`.
pub open spec fn prompt_for(cfg: Config, issue: Issue) -> Seq<char> {
    prompt_text(cfg.delegate.prompt@, issue, cfg.delegate.max_description_chars as nat)
}

/// Where a new agent goes, as the toast says it.
pub open spec fn place_hint(placement: Seq<char>, ws_label: Seq<char>) -> Seq<char> {
    if crate::text::eq_ignore_ascii_case(placement, "tab"@) || placement.len() == 0 {
        "new tab in "@ + ws_label
    } else {
        "split "@ + placement + " in "@ + ws_label
    }
}

pub open spec fn home_text(env: AppEnv) -> Seq<char> {
    match env.home {
        Some(h) => h@,
        None => Seq::empty(),
    }
}

/// What starting a new agent in `cwd` (expanded; `dir_ok` whether it is a
/// directory) does to `old`.
pub open spec fn started_new(old: App, new: App, cwd: Seq<char>, dir_ok: bool) -> bool {
    match old.selection() {
        None => new == old,
        Some(issue) => if old.spawn.pending_spawn is None {
            only_toast(old, new, "no agent selected"@, true)
        } else if old.spawn.pending_workspace is None {
            only_toast(old, new, "no workspace selected"@, true)
        } else if cwd.len() == 0 {
            only_toast(old, new, "cwd is empty"@, true)
        } else if !dir_ok {
            only_toast(old, new, crate::pane::paths::not_a_directory(cwd), true)
        } else if old.spawn.pending_spawn->0.command@.len() == 0 {
            only_toast(old, new, old.spawn.pending_spawn->0.name@ + ": empty command"@, true)
        } else {
            let spawn = old.spawn.pending_spawn->0;
            let ws = old.spawn.pending_workspace->0;
            let d = old.cfg.delegate;
            let mid = with_toast(old, new);
            &&& toasted(
                old,
                mid,
                "starting "@ + spawn.name@ + " for "@ + issue.key@ + " ("@ + place_hint(
                    d.placement@,
                    ws.label@,
                ) + ", "@ + crate::naming::home_short(cwd, home_text(old.env)) + ")…"@,
                false,
            )
            &&& new == (App { actions: new.actions, ..mid })
            &&& queued(mid, new)
            &&& last_action(new) matches Action::StartAndDelegate {
                key,
                agent_label,
                opts,
                text,
                submit,
                submit_delay_ms,
                startup_delay_ms,
                wait_ready_ms,
            } && key@ == issue.key@ && agent_label == spawn.name && text@ == prompt_for(old.cfg, issue)
                && submit == d.submit && submit_delay_ms == d.submit_delay_ms && startup_delay_ms
                == d.startup_delay_ms && wait_ready_ms == d.wait_ready_ms && opts.name@
                == crate::naming::name_safe(issue.key@) + "-"@ + crate::naming::name_safe(spawn.name@)
                + "-"@ + crate::text::decimal((old.clock_secs % 10_000) as nat) && opts.cwd@ == cwd
                && opts.argv@ == spawn.command@ && opts.placement == d.placement && opts.focus
                == d.focus_new && opts.workspace_id == ws.id && opts.tab_label@ == issue.key@
                && opts.worktree is None
        },
    }
}

impl App {
    /// The cwd picker for the new agent.
    pub fn open_new_agent_cwd_picker(&mut self)
        ensures
            cwd_picker_opened(*old(self), *final(self)),

    {
        self.spawn.cwd_choices = crate::pane::paths::collect_cwd_choices(&self.cfg, &self.spawn.agents, &self.env);
        self.picker_sel = 0;
        self.view = Screen::NewAgentCwdPicker;
    }

    /// Free-text cwd entry, prefilled with the configured default, else the
    /// first choice, else `$HOME`.
    pub fn open_cwd_input(&mut self)
        ensures
            cwd_input_opened(*old(self), *final(self)),

    {
        let pref = if trim_vec(&chars_of(self.cfg.delegate.default_cwd.as_str())).len() > 0 {
            self.cfg.delegate.default_cwd.clone()
        } else if self.spawn.cwd_choices.len() > 0 {
            self.spawn.cwd_choices[0].clone()
        } else {
            match &self.env.home {
                Some(h) => h.clone(),
                None => String::new(),
            }
        };
        self.spawn.cwd_input = pref;
        self.view = Screen::NewAgentCwdInput;
    }

    /// Hand the selected issue's prompt to a running agent.
    pub fn delegate_to(&mut self, agent: HerdrAgent)
        ensures
            delegated_to(*old(self), *final(self), agent),

    {
        let (text, key) = match self.selected_issue() {
            Some(issue) => (build_prompt(&self.cfg, issue), issue.key.clone()),
            None => {
                return;
            },
        };
        let submit = self.cfg.delegate.submit;
        let delay = self.cfg.delegate.submit_delay_ms;
        let mut m = chars_of("sending ");
        push_string(&mut m, &key);
        push_str(&mut m, " to ");
        push_string(&mut m, &agent.label);
        push_str(&mut m, "…");
        self.toast(string_of(&m), false);
        self.queue(Action::SendToAgent { key, agent, text, submit, submit_delay_ms: delay });
    }

    /// Start the picked agent in the picked workspace and `cwd_raw`, wait
    /// until ready, send the prompt. Whether the cwd is a directory is the
    /// file system's answer.
    pub fn start_new_and_delegate(&mut self, cwd_raw: String)
        ensures
            new_agent_started(*old(self), *final(self), cwd_raw),

    {
        if self.selected_issue().is_none() || self.spawn.pending_spawn.is_none()
            || self.spawn.pending_workspace.is_none() {
            self.start_new_in(String::new(), false);
            return;
        }
        let cwd = expand_path(cwd_raw.as_str(), &self.env.home);
        let dir = if chars_of(cwd.as_str()).len() > 0 {
            crate::pane::paths::is_dir(cwd.as_str())
        } else {
            false
        };
        self.start_new_in(cwd, dir);
    }

    /// `start_new_and_delegate` once the cwd is expanded to `cwd` and checked.
    pub fn start_new_in(&mut self, cwd: String, dir_ok: bool)
        ensures
            started_new(*old(self), *final(self), cwd@, dir_ok),
    {
        let (text, key) = match self.selected_issue() {
            Some(issue) => (build_prompt(&self.cfg, issue), issue.key.clone()),
            None => {
                return;
            },
        };
        let spawn = match &self.spawn.pending_spawn {
            Some(s) => copy_spawn(s),
            None => {
                self.toast(owned("no agent selected"), true);
                return;
            },
        };
        let (ws_id, ws_label) = match &self.spawn.pending_workspace {
            Some(w) => (w.id.clone(), w.label.clone()),
            None => {
                self.toast(owned("no workspace selected"), true);
                return;
            },
        };
        if chars_of(cwd.as_str()).len() == 0 {
            self.toast(owned("cwd is empty"), true);
            return;
        }
        if !dir_ok {
            let mut m = chars_of("not a directory: ");
            push_string(&mut m, &cwd);
            self.toast(string_of(&m), true);
            return;
        }
        if spawn.command.len() == 0 {
            let mut m = chars_of(spawn.name.as_str());
            push_str(&mut m, ": empty command");
            self.toast(string_of(&m), true);
            return;
        }
        let d = &self.cfg.delegate;
        let name = crate::naming::unique_agent_name(key.as_str(), spawn.name.as_str(), self.clock_secs);
        let placement = d.placement.clone();
        let hint = if crate::text::eq_ignore_case(placement.as_str(), "tab") || chars_of(
            placement.as_str(),
        ).len() == 0 {
            let mut m = chars_of("new tab in ");
            push_string(&mut m, &ws_label);
            m
        } else {
            let mut m = chars_of("split ");
            push_string(&mut m, &placement);
            push_str(&mut m, " in ");
            push_string(&mut m, &ws_label);
            m
        };
        let home = match &self.env.home {
            Some(h) => h.clone(),
            None => String::new(),
        };
        let shown = crate::naming::short_home(cwd.as_str(), home.as_str());
        let mut m = chars_of("starting ");
        push_string(&mut m, &spawn.name);
        push_str(&mut m, " for ");
        push_string(&mut m, &key);
        push_str(&mut m, " (");
        append(&mut m, &hint);
        push_str(&mut m, ", ");
        push_string(&mut m, &shown);
        push_str(&mut m, ")…");
        let opts = StartAgentOpts {
            name,
            cwd,
            argv: spawn.command,
            placement,
            focus: d.focus_new,
            workspace_id: ws_id,
            tab_label: key.clone(),
            worktree: None,
        };
        let submit = d.submit;
        let submit_delay_ms = d.submit_delay_ms;
        let startup_delay_ms = d.startup_delay_ms;
        let wait_ready_ms = d.wait_ready_ms;
        self.toast(string_of(&m), false);
        self.queue(
            Action::StartAndDelegate {
                key,
                agent_label: spawn.name,
                opts,
                text,
                submit,
                submit_delay_ms,
                startup_delay_ms,
                wait_ready_ms,
            },
        );
    }
}

/// The repo configured for Jira project `project` (first entry).
pub open spec fn repo_for(repos: Seq<(String, String)>, project: Seq<char>) -> Option<Seq<char>>
    decreases repos.len(),
{
    if repos.len() == 0 {
        None
    } else if repos[0].0@ == project {
        Some(repos[0].1@)
    } else {
        repo_for(repos.drop_first(), project)
    }
}

/// The repo `w` uses for `issue_key`: the project's entry, else `repo`;
/// blank ones do not count.
pub open spec fn configured_repo(cfg: Config, issue_key: Seq<char>) -> Option<Seq<char>> {
    let w = cfg.worktree;
    match repo_for(w.repos@, crate::naming::project_of(issue_key)) {
        Some(r) if trim_ws(r).len() > 0 => Some(r),
        _ => if trim_ws(w.repo@).len() > 0 {
            Some(w.repo@)
        } else {
            None
        },
    }
}

proof fn lemma_repo_for_first(repos: Seq<(String, String)>, project: Seq<char>, i: int)
    requires
        0 <= i <= repos.len(),
        forall|k: int| 0 <= k < i ==> (#[trigger] repos[k]).0@ != project,
    ensures
        i < repos.len() && repos[i].0@ == project ==> repo_for(repos, project) == Some(repos[i].1@),
        i == repos.len() ==> repo_for(repos, project) is None,
    decreases i,
{
    if i > 0 {
        let d = repos.drop_first();
        assert forall|k: int| 0 <= k < i - 1 implies (#[trigger] d[k]).0@ != project by {
            assert(d[k] == repos[k + 1]);
        }
        lemma_repo_for_first(d, project, i - 1);
        assert(repos[0].0@ != project);
        if i < repos.len() {
            assert(d[i - 1] == repos[i]);
        }
    }
}

/// Law: for `w`, the `[worktree.repos]` entry of the issue's project key wins
/// over `[worktree].repo` when it is not blank; when it is blank, or the
/// project has no entry, `[worktree].repo` is used unless it is blank too,
/// and then no repo is configured.
pub proof fn lemma_project_repo_wins(cfg: Config, issue_key: Seq<char>, i: int)
    requires
        0 <= i <= cfg.worktree.repos@.len(),
        forall|k: int|
            0 <= k < i ==> (#[trigger] cfg.worktree.repos@[k]).0@ != crate::naming::project_of(
                issue_key,
            ),
        i < cfg.worktree.repos@.len() ==> cfg.worktree.repos@[i].0@ == crate::naming::project_of(
            issue_key,
        ),
    ensures
        i < cfg.worktree.repos@.len() && trim_ws(cfg.worktree.repos@[i].1@).len() > 0 ==> configured_repo(
            cfg,
            issue_key,
        ) == Some(cfg.worktree.repos@[i].1@),
        (i == cfg.worktree.repos@.len() || trim_ws(cfg.worktree.repos@[i].1@).len() == 0) ==> {
            &&& trim_ws(cfg.worktree.repo@).len() > 0 ==> configured_repo(cfg, issue_key) == Some(
                cfg.worktree.repo@,
            )
            &&& trim_ws(cfg.worktree.repo@).len() == 0 ==> configured_repo(cfg, issue_key) is None
        },
{
    lemma_repo_for_first(cfg.worktree.repos@, crate::naming::project_of(issue_key), i);
}

/// The display name of a directory: its last component, else the path.
pub open spec fn display_name(path: Seq<char>) -> Seq<char> {
    match crate::naming::path_file_name(path) {
        Some(n) => n,
        None => path,
    }
}

/// The worktree list of `repo` was opened and its checkouts requested.
pub open spec fn list_opened(old: App, new: App, repo: Seq<char>, name: Seq<char>) -> bool {
    &&& new == (App {
        picker_sel: 0,
        view: Screen::WorktreeListPicker,
        actions: new.actions,
        wt: WorktreeState {
            wt_repo: new.wt.wt_repo,
            wt_repo_name: new.wt.wt_repo_name,
            wt_worktrees: new.wt.wt_worktrees,
            wt_worktrees_loading: true,
            ..old.wt
        },
        ..old
    })
    &&& new.wt.wt_repo@ == repo
    &&& new.wt.wt_repo_name@ == name
    &&& new.wt.wt_worktrees@.len() == 0
    &&& queued(old, new)
    &&& last_action(new) matches Action::ListWorktrees { repo: r } && r@ == repo
}

/// The project picker was opened and herdr's projects requested.
pub open spec fn projects_requested(old: App, new: App) -> bool {
    &&& new == (App {
        picker_sel: 0,
        view: Screen::WorktreeProjectPicker,
        actions: new.actions,
        wt: WorktreeState { wt_projects: new.wt.wt_projects, wt_projects_loading: true, ..old.wt },
        ..old
    })
    &&& new.wt.wt_projects@.len() == 0
    &&& queued(old, new)
    &&& last_action(new) is ListProjects
}

/// What choosing a repo path does: `resolved` is `resolve_cwd`'s answer.
pub open spec fn repo_chosen(old: App, new: App, resolved: Result<Seq<char>, Seq<char>>, prefix: Seq<char>, name: Option<Seq<char>>) -> bool {
    match resolved {
        Ok(repo) => list_opened(old, new, repo, match name {
            Some(n) => n,
            None => display_name(repo),
        }),
        Err(e) => only_toast(old, new, prefix + e, true),
    }
}

/// `resolve_cwd`'s possible answers for `raw`.
pub open spec fn resolves(raw: Seq<char>, home: Option<Seq<char>>, r: Result<Seq<char>, Seq<char>>) -> bool {
    let e = expanded(raw, home);
    if e.len() == 0 {
        r == Err::<Seq<char>, Seq<char>>("path is empty"@)
    } else {
        r == Ok::<Seq<char>, Seq<char>>(e) || r == Err::<Seq<char>, Seq<char>>(
            crate::pane::paths::not_a_directory(e),
        )
    }
}

pub open spec fn result_view(r: Result<String, String>) -> Result<Seq<char>, Seq<char>> {
    match r {
        Ok(s) => Ok(s@),
        Err(e) => Err(e@),
    }
}

/// The first project whose expanded root is `repo` (`len` if none).
pub open spec fn project_pos(ps: Seq<RepoProject>, repo: Seq<char>, home: Option<Seq<char>>) -> int
    decreases ps.len(),
{
    if ps.len() == 0 {
        0
    } else if expanded(ps[0].root@, home) == repo {
        0
    } else {
        1 + project_pos(ps.drop_first(), repo, home)
    }
}

/// The first worktree on `branch` (`len` if none).
pub open spec fn branch_pos(ws: Seq<crate::herdr::RepoWorktree>, branch: Seq<char>) -> int
    decreases ws.len(),
{
    if ws.len() == 0 {
        0
    } else if ws[0].branch@ == branch {
        0
    } else {
        1 + branch_pos(ws.drop_first(), branch)
    }
}

/// The first current project (`len` if none).
pub open spec fn first_current(ps: Seq<RepoProject>) -> int
    decreases ps.len(),
{
    if ps.len() == 0 {
        0
    } else if ps[0].current {
        0
    } else {
        1 + first_current(ps.drop_first())
    }
}

/// The row of the first current project (0 if none).
pub open spec fn current_pos(ps: Seq<RepoProject>) -> int {
    if first_current(ps) < ps.len() {
        first_current(ps)
    } else {
        0
    }
}

pub open spec fn worktree_screen(v: Screen) -> bool {
    v == Screen::WorktreeProjectPicker || v == Screen::WorktreeRepoInput || v
        == Screen::WorktreeListPicker || v == Screen::WorktreeNameInput || v
        == Screen::WorktreeAgentPicker
}

fn repo_entry(repos: &Vec<(String, String)>, project: &String) -> (r: Option<String>)
    ensures
        crate::naming::opt_view(r) == repo_for(repos@, project@),
{
    let want = chars_of(project.as_str());
    let mut i: usize = 0;
    assert(repos@.skip(0) =~= repos@);
    while i < repos.len()
        invariant
            i <= repos.len(),
            want@ == project@,
            repo_for(repos@, project@) == repo_for(repos@.skip(i as int), project@),
        decreases repos.len() - i,
    {
        assert(repos@.skip(i as int)[0] == repos@[i as int]);
        if crate::branch::vec_equal(&chars_of(repos[i].0.as_str()), &want) {
            return Some(repos[i].1.clone());
        }
        assert(repos@.skip(i as int).drop_first() =~= repos@.skip(i + 1));
        i += 1;
    }
    None
}

fn project_index(ps: &Vec<RepoProject>, repo: &String, home: &Option<String>) -> (r: usize)
    ensures
        r == project_pos(ps@, repo@, crate::naming::opt_view(*home)),
{
    let want = chars_of(repo.as_str());
    let ghost h = crate::naming::opt_view(*home);
    let mut i: usize = 0;
    assert(ps@.skip(0) =~= ps@);
    while i < ps.len()
        invariant
            i <= ps.len(),
            want@ == repo@,
            h == crate::naming::opt_view(*home),
            project_pos(ps@, repo@, h) == i + project_pos(ps@.skip(i as int), repo@, h),
        decreases ps.len() - i,
    {
        assert(ps@.skip(i as int)[0] == ps@[i as int]);
        let root = expand_path(ps[i].root.as_str(), home);
        if crate::branch::vec_equal(&chars_of(root.as_str()), &want) {
            return i;
        }
        assert(ps@.skip(i as int).drop_first() =~= ps@.skip(i + 1));
        i += 1;
    }
    i
}

fn branch_index(ws: &Vec<crate::herdr::RepoWorktree>, b: &str) -> (r: usize)
    ensures
        r == branch_pos(ws@, b@),
{
    let want = chars_of(b);
    let mut i: usize = 0;
    assert(ws@.skip(0) =~= ws@);
    while i < ws.len()
        invariant
            i <= ws.len(),
            want@ == b@,
            branch_pos(ws@, b@) == i + branch_pos(ws@.skip(i as int), b@),
        decreases ws.len() - i,
    {
        assert(ws@.skip(i as int)[0] == ws@[i as int]);
        if crate::branch::vec_equal(&chars_of(ws[i].branch.as_str()), &want) {
            return i;
        }
        assert(ws@.skip(i as int).drop_first() =~= ws@.skip(i + 1));
        i += 1;
    }
    i
}

impl App {
    /// `w`: the repo from `[worktree]` (per project key, then the default),
    /// or else the herdr project picker; then the repo's worktrees.
    pub fn open_worktree(&mut self)
        ensures
            worktree_opened(*old(self), *final(self)),

    {
        let (branch, key) = match self.selected_issue() {
            Some(issue) => (
                crate::naming::render_branch_name(self.cfg.worktree.branch.as_str(), issue),
                issue.key.clone(),
            ),
            None => {
                return;
            },
        };
        let configured = self.configured_repo_of(&key);
        self.wt.wt_default_branch = branch;
        self.wt.wt_existing = false;
        self.open_configured(configured);
    }

    fn open_configured(&mut self, configured: Option<String>)
        ensures
            repo_opened(*old(self), *final(self), crate::naming::opt_view(configured)),
    {
        match configured {
            None => {
                self.wt.wt_project_asked = true;
                self.open_worktree_project_picker();
            },
            Some(raw) => {
                self.wt.wt_project_asked = false;
                let ghost before = *self;
                let resolved = crate::pane::paths::resolve_cwd(raw.as_str(), &self.env.home);
                let ghost rv = result_view(resolved);
                self.use_repo(resolved, "worktree repo: ", None);
                assert(resolves(raw@, crate::pane::home_of(*old(self)), rv));
                assert(repo_chosen(before, *self, rv, "worktree repo: "@, None));
            },
        }
    }

    fn configured_repo_of(&self, issue_key: &String) -> (r: Option<String>)
        ensures
            crate::naming::opt_view(r) == configured_repo(self.cfg, issue_key@),
    {
        let project = crate::naming::project_key(issue_key.as_str());
        match repo_entry(&self.cfg.worktree.repos, &project) {
            Some(r) => {
                if trim_vec(&chars_of(r.as_str())).len() > 0 {
                    return Some(r);
                }
            },
            None => {},
        }
        if trim_vec(&chars_of(self.cfg.worktree.repo.as_str())).len() > 0 {
            Some(self.cfg.worktree.repo.clone())
        } else {
            None
        }
    }

    /// Continue with a resolved repo path (its name given, or else its
    /// directory name), or report why it is unusable.
    pub fn use_repo(&mut self, resolved: Result<String, String>, prefix: &str, name: Option<String>)
        ensures
            repo_used(*old(self), *final(self), resolved, prefix@, name),

    {
        match resolved {
            Ok(repo) => {
                let name = match name {
                    Some(n) => n,
                    None => crate::naming::dir_name(repo.as_str()),
                };
                self.open_worktree_list(repo, name);
            },
            Err(e) => {
                let mut m = chars_of(prefix);
                push_string(&mut m, &e);
                self.toast(string_of(&m), true);
            },
        }
    }

    /// Step A: fetch herdr's projects for the picker.
    pub fn open_worktree_project_picker(&mut self)
        ensures
            projects_requested(*old(self), *final(self)),
    {
        self.wt.wt_projects.clear();
        self.wt.wt_projects_loading = true;
        self.picker_sel = 0;
        self.view = Screen::WorktreeProjectPicker;
        self.queue(Action::ListProjects);
    }

    /// Back to the project picker with the chosen project (or "type
    /// path…") selected.
    pub fn return_to_project_picker(&mut self)
        ensures
            back_to_projects(*old(self), *final(self)),

    {
        let i = project_index(&self.wt.wt_projects, &self.wt.wt_repo, &self.env.home);
        self.picker_sel = i;
        self.view = Screen::WorktreeProjectPicker;
    }

    /// Step B: fetch the worktrees of `repo`.
    pub fn open_worktree_list(&mut self, repo: String, name: String)
        ensures
            list_opened(*old(self), *final(self), repo@, name@),
    {
        self.wt.wt_repo = repo.clone();
        self.wt.wt_repo_name = name;
        self.wt.wt_worktrees.clear();
        self.wt.wt_worktrees_loading = true;
        self.picker_sel = 0;
        self.view = Screen::WorktreeListPicker;
        self.queue(Action::ListWorktrees { repo });
    }

    /// Back to the worktree list with `branch`'s row (or "+ new worktree")
    /// selected.
    pub fn return_to_worktree_list(&mut self, branch: Option<&str>)
        ensures
            back_to_worktrees(*old(self), *final(self), match branch { Some(b) => Some(b@), None => None }),

    {
        let sel = match branch {
            Some(b) => {
                let k = branch_index(&self.wt.wt_worktrees, b);
                if k < self.wt.wt_worktrees.len() {
                    k + 1
                } else {
                    0
                }
            },
            None => 0,
        };
        self.picker_sel = sel;
        self.view = Screen::WorktreeListPicker;
    }

    /// "+ new worktree": the name input, prefilled from `[worktree].branch`.
    pub fn open_worktree_name_input(&mut self)
        ensures
            name_input_opened(*old(self), *final(self)),

    {
        self.wt.wt_name_input = self.wt.wt_default_branch.clone();
        self.view = Screen::WorktreeNameInput;
    }

    /// Free-text repo path, prefilled with the selected project's root (or
    /// the first one's), else `$HOME`.
    pub fn open_worktree_repo_input(&mut self)
        ensures
            repo_input_opened(*old(self), *final(self)),

    {
        let pref = if self.picker_sel < self.wt.wt_projects.len() {
            self.wt.wt_projects[self.picker_sel].root.clone()
        } else if self.wt.wt_projects.len() > 0 {
            self.wt.wt_projects[0].root.clone()
        } else {
            match &self.env.home {
                Some(h) => h.clone(),
                None => String::new(),
            }
        };
        self.spawn.cwd_input = pref;
        self.view = Screen::WorktreeRepoInput;
    }

    /// Any step of the `w` flow is on screen.
    pub fn in_worktree_flow(&self) -> (b: bool)
        ensures
            b == worktree_screen(self.view),
    {
        self.view == Screen::WorktreeProjectPicker || self.view == Screen::WorktreeRepoInput
            || self.view == Screen::WorktreeListPicker || self.view == Screen::WorktreeNameInput
            || self.view == Screen::WorktreeAgentPicker
    }
}

fn current_index(ps: &Vec<RepoProject>) -> (r: usize)
    ensures
        r == current_pos(ps@),
{
    let mut i: usize = 0;
    assert(ps@.skip(0) =~= ps@);
    while i < ps.len()
        invariant
            i <= ps.len(),
            first_current(ps@) == i + first_current(ps@.skip(i as int)),
        decreases ps.len() - i,
    {
        assert(ps@.skip(i as int)[0] == ps@[i as int]);
        if ps[i].current {
            return i;
        }
        assert(ps@.skip(i as int).drop_first() =~= ps@.skip(i + 1));
        i += 1;
    }
    0
}

impl App {
    /// herdr's projects arrived: fill the picker, the current one selected.
    /// Stale answers (`w` was left, or nothing is awaited) are dropped.
    pub fn on_projects(&mut self, result: Result<Vec<RepoProject>, String>)
        ensures
            !old(self).wt.wt_projects_loading || !worktree_screen(old(self).view) ==> *final(self)
                == *old(self),
            old(self).wt.wt_projects_loading && worktree_screen(old(self).view) ==> {
                let mid = App {
                    wt: WorktreeState { wt_projects_loading: false, ..(*old(self)).wt },
                    ..*old(self)
                };
                match result {
                    Ok(ps) => *final(self) == (App {
                        picker_sel: if old(self).view == Screen::WorktreeProjectPicker {
                            current_pos(ps@) as usize
                        } else {
                            old(self).picker_sel
                        },
                        wt: WorktreeState { wt_projects: ps, ..mid.wt },
                        ..mid
                    }),
                    Err(e) => only_toast(mid, *final(self), "herdr projects: "@ + e@, true),
                }
            },
    {
        if !self.wt.wt_projects_loading || !self.in_worktree_flow() {
            return;
        }
        self.wt.wt_projects_loading = false;
        match result {
            Ok(projects) => {
                if self.view == Screen::WorktreeProjectPicker {
                    self.picker_sel = current_index(&projects);
                }
                self.wt.wt_projects = projects;
            },
            Err(e) => {
                let mut m = chars_of("herdr projects: ");
                push_string(&mut m, &e);
                self.toast(string_of(&m), true);
            },
        }
    }

    /// The checkouts of `repo` arrived: fill the list and preselect the
    /// issue's branch. Answers for another repo, after `w` was left, or not
    /// awaited are dropped.
    pub fn on_repo_worktrees(&mut self, repo: String, result: Result<Vec<crate::herdr::RepoWorktree>, String>)
        ensures
            !old(self).wt.wt_worktrees_loading || repo@ != old(self).wt.wt_repo@ || !worktree_screen(
                old(self).view,
            ) ==> *final(self) == *old(self),
            old(self).wt.wt_worktrees_loading && repo@ == old(self).wt.wt_repo@ && worktree_screen(
                old(self).view,
            ) ==> {
                let mid = App {
                    wt: WorktreeState { wt_worktrees_loading: false, ..(*old(self)).wt },
                    ..*old(self)
                };
                match result {
                    Ok(ws) => {
                        let pos = branch_pos(ws@, old(self).wt.wt_default_branch@);
                        *final(self) == (App {
                            picker_sel: if old(self).view == Screen::WorktreeListPicker {
                                if pos < ws@.len() {
                                    (pos + 1) as usize
                                } else {
                                    0usize
                                }
                            } else {
                                old(self).picker_sel
                            },
                            wt: WorktreeState { wt_worktrees: ws, ..mid.wt },
                            ..mid
                        })
                    },
                    Err(e) => only_toast(mid, *final(self), "worktrees: "@ + e@, true),
                }
            },
    {
        if !self.wt.wt_worktrees_loading || !crate::branch::vec_equal(
            &chars_of(repo.as_str()),
            &chars_of(self.wt.wt_repo.as_str()),
        ) || !self.in_worktree_flow() {
            return;
        }
        self.wt.wt_worktrees_loading = false;
        match result {
            Ok(worktrees) => {
                self.wt.wt_worktrees = worktrees;
                if self.view == Screen::WorktreeListPicker {
                    let branch = self.wt.wt_default_branch.clone();
                    self.return_to_worktree_list(Some(branch.as_str()));
                }
            },
            Err(e) => {
                let mut m = chars_of("worktrees: ");
                push_string(&mut m, &e);
                self.toast(string_of(&m), true);
            },
        }
    }

    /// Open (or create) the worktree without an agent.
    pub fn open_worktree_only(&mut self, opts: WorktreeOpts)
        ensures
            worktree_only_opened(*old(self), *final(self), opts),

    {
        let repo = self.wt.wt_repo.clone();
        let focus = self.cfg.worktree.focus;
        let branch = opts.branch.clone();
        let mut m = if self.wt.wt_existing {
            chars_of("opening")
        } else {
            chars_of("creating")
        };
        push_str(&mut m, " worktree ");
        push_string(&mut m, &branch);
        push_str(&mut m, "…");
        self.toast(string_of(&m), false);
        self.queue(Action::OpenWorktree { branch, repo, opts, focus });
    }

    /// Start `spawn` inside the worktree `wt` of `wt_repo`, wait until ready,
    /// send the prompt.
    pub fn start_worktree_agent(&mut self, spawn: SpawnAgent, wt: WorktreeOpts)
        ensures
            worktree_agent_started(*old(self), *final(self), spawn, wt),

    {
        if spawn.command.len() == 0 {
            let mut m = chars_of(spawn.name.as_str());
            push_str(&mut m, ": empty command");
            self.toast(string_of(&m), true);
            return;
        }
        let (text, key) = match self.selected_issue() {
            Some(issue) => (build_prompt(&self.cfg, issue), issue.key.clone()),
            None => {
                return;
            },
        };
        let d = &self.cfg.delegate;
        let submit = match self.cfg.worktree.submit {
            Some(b) => b,
            None => d.submit,
        };
        let home = match &self.env.home {
            Some(h) => h.clone(),
            None => String::new(),
        };
        let shown = crate::naming::short_home(self.wt.wt_repo.as_str(), home.as_str());
        let mut m = chars_of("starting ");
        push_string(&mut m, &spawn.name);
        push_str(&mut m, " for ");
        push_string(&mut m, &key);
        push_str(&mut m, " (worktree ");
        push_string(&mut m, &wt.branch);
        push_str(&mut m, " of ");
        push_string(&mut m, &shown);
        push_str(&mut m, ")…");
        let opts = StartAgentOpts {
            name: crate::naming::unique_agent_name(key.as_str(), spawn.name.as_str(), self.clock_secs),
            cwd: self.wt.wt_repo.clone(),
            argv: spawn.command,
            placement: d.placement.clone(),
            focus: self.cfg.worktree.focus,
            workspace_id: String::new(),
            tab_label: key.clone(),
            worktree: Some(wt),
        };
        let submit_delay_ms = d.submit_delay_ms;
        let startup_delay_ms = d.startup_delay_ms;
        let wait_ready_ms = d.wait_ready_ms;
        self.toast(string_of(&m), false);
        self.queue(
            Action::StartAndDelegate {
                key,
                agent_label: spawn.name,
                opts,
                text,
                submit,
                submit_delay_ms,
                startup_delay_ms,
                wait_ready_ms,
            },
        );
    }

    /// Toggle the zoom of our own pane.
    pub fn zoom_toggle(&mut self)
        ensures
            zoom_toggled(*old(self), *final(self)),

    {
        self.queue(Action::ToggleZoom);
    }

    /// Open the selected issue in the browser.
    pub fn open_in_browser(&mut self)
        ensures
            browser_opened(*old(self), *final(self)),

    {
        let url = match self.selected_issue() {
            Some(issue) => issue.url.clone(),
            None => {
                return;
            },
        };
        let mut m = chars_of("opened ");
        push_string(&mut m, &url);
        self.toast(string_of(&m), false);
        self.queue(Action::OpenUrl { url });
    }
}

} // verus!

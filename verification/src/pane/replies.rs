//! What each answer to an `Action` does to the browser.

use vstd::prelude::*;
use crate::herdr::{HerdrAgent, HerdrWorkspace};
use crate::issue::{Comment, Issue, Transition};
use crate::pane::flow::{expand, only_toast, searched, with_toast};
use crate::pane::{
    Action, App, DetailState, ListState, Resp, Screen, SpawnState, TransitionState, WorktreeState,
    last_action, queued, toasted,
};
use crate::text::{chars_of, owned, push_str, push_string, string_of};

verus! {

fn text2(a: &str, b: &String) -> (r: String)
    ensures
        r@ == a@ + b@,
{
    let mut m = chars_of(a);
    push_string(&mut m, b);
    string_of(&m)
}

fn text3(a: &String, b: &str, c: &String) -> (r: String)
    ensures
        r@ == a@ + b@ + c@,
{
    let mut m: Vec<char> = Vec::new();
    push_string(&mut m, a);
    push_str(&mut m, b);
    push_string(&mut m, c);
    string_of(&m)
}

/// The first workspace with id `id` (`len` if none, or if `id` is empty).
pub open spec fn id_pos(ws: Seq<HerdrWorkspace>, id: Seq<char>) -> int
    decreases ws.len(),
{
    if ws.len() == 0 {
        0
    } else if id.len() > 0 && ws[0].id@ == id {
        0
    } else {
        1 + id_pos(ws.drop_first(), id)
    }
}

/// The first focused workspace (`len` if none).
pub open spec fn focused_pos(ws: Seq<HerdrWorkspace>) -> int
    decreases ws.len(),
{
    if ws.len() == 0 {
        0
    } else if ws[0].focused {
        0
    } else {
        1 + focused_pos(ws.drop_first())
    }
}

/// The workspace preselected for a new agent: the one hosting this pane,
/// else the focused one, else the first.
pub open spec fn preferred_workspace(ws: Seq<HerdrWorkspace>, current: Seq<char>) -> int {
    if id_pos(ws, current) < ws.len() {
        id_pos(ws, current)
    } else if focused_pos(ws) < ws.len() {
        focused_pos(ws)
    } else {
        0
    }
}

fn preferred_index(ws: &Vec<HerdrWorkspace>, current: &String) -> (r: usize)
    ensures
        r == preferred_workspace(ws@, current@),
{
    let want = chars_of(current.as_str());
    let mut i: usize = 0;
    assert(ws@.skip(0) =~= ws@);
    while i < ws.len()
        invariant
            i <= ws.len(),
            want@ == current@,
            id_pos(ws@, current@) == i + id_pos(ws@.skip(i as int), current@),
        decreases ws.len() - i,
    {
        assert(ws@.skip(i as int)[0] == ws@[i as int]);
        if want.len() > 0 && crate::branch::vec_equal(&chars_of(ws[i].id.as_str()), &want) {
            return i;
        }
        assert(ws@.skip(i as int).drop_first() =~= ws@.skip(i + 1));
        i += 1;
    }
    let mut j: usize = 0;
    while j < ws.len()
        invariant
            j <= ws.len(),
            id_pos(ws@, current@) >= ws@.len(),
            focused_pos(ws@) == j + focused_pos(ws@.skip(j as int)),
        decreases ws.len() - j,
    {
        assert(ws@.skip(j as int)[0] == ws@[j as int]);
        if ws[j].focused {
            return j;
        }
        assert(ws@.skip(j as int).drop_first() =~= ws@.skip(j + 1));
        j += 1;
    }
    0
}

/// The selection kept on the new list: at most its last row.
pub open spec fn clamp_selection(selected: usize, len: nat) -> usize {
    if len == 0 {
        0
    } else if selected < len {
        selected
    } else {
        (len - 1) as usize
    }
}

/// What an issue list answer does.
pub open spec fn issues_answered(old: App, new: App, title: String, result: Result<Vec<Issue>, String>) -> bool {
    let mid = App { list: ListState { loading: false, ..old.list }, ..old };
    match result {
        Ok(issues) => {
            &&& new == (App {
                list: ListState {
                    current_title: title,
                    issues: issues,
                    children: new.list.children,
                    expanded: new.list.expanded,
                    loading_children: new.list.loading_children,
                    selected: clamp_selection(old.list.selected, issues@.len()),
                    ..mid.list
                },
                ..mid
            })
            &&& forall|k: Seq<char>|
                #![trigger new.list.children.lookup(k)]
                #![trigger new.list.expanded.has(k)]
                #![trigger new.list.loading_children.has(k)]
                new.list.children.lookup(k) is None && !new.list.expanded.has(k) && !new.list.loading_children.has(k)
        },
        Err(e) => only_toast(mid, new, "Jira: "@ + e@, true),
    }
}

pub open spec fn transitions_answered(old: App, new: App, key: String, result: Result<Vec<Transition>, String>) -> bool {
    if key@ != old.transition.transitions_for@ {
        new == old
    } else {
        let mid = App { transition: TransitionState { transitions_loading: false, ..old.transition }, ..old };
        match result {
            Ok(ts) => new == (App { transition: TransitionState { transitions: ts, ..mid.transition }, ..mid }),
            Err(e) => only_toast(
                App { view: Screen::List, ..mid },
                new,
                key@ + ": transitions: "@ + e@,
                true,
            ),
        }
    }
}

pub open spec fn transitioned(old: App, new: App, key: String, name: String, result: Result<(), String>) -> bool {
    match result {
        Ok(()) => {
            // `new` before the reload of the current filter
            let mid = App {
                actions: old.actions,
                list: ListState {
                    last_jql: old.list.last_jql,
                    loading: old.list.loading,
                    ..new.list
                },
                ..new
            };
            &&& mid == (App {
                toast: mid.toast,
                toast_seq: mid.toast_seq,
                detail: DetailState {
                    comments: mid.detail.comments,
                    comments_err: mid.detail.comments_err,
                    ..old.detail
                },
                ..old
            })
            &&& mid.detail.comments.lookup(key@) is None && mid.detail.comments_err.lookup(key@) is None
            &&& forall|j: Seq<char>|
                j != key@ ==> #[trigger] mid.detail.comments.lookup(j) == old.detail.comments.lookup(j)
                    && mid.detail.comments_err.lookup(j) == old.detail.comments_err.lookup(j)
            &&& toasted(old, mid, key@ + " → "@ + name@, false)
            &&& if old.list.filter_idx < old.cfg.filters@.len() {
                searched(
                    mid,
                    new,
                    expand(old.cfg, old.cfg.filters@[old.list.filter_idx as int].jql@),
                    old.cfg.filters@[old.list.filter_idx as int].name@,
                )
            } else {
                new == mid
            }
        },
        Err(e) => only_toast(old, new, key@ + ": "@ + e@, true),
    }
}

pub open spec fn agents_answered(old: App, new: App, result: Result<Vec<HerdrAgent>, String>) -> bool {
    let mid = App { spawn: SpawnState { agents_loading: false, ..old.spawn }, ..old };
    let can_start = old.cfg.delegate.agents@.len() > 0;
    match result {
        Ok(agents) => if agents@.len() == 0 && !can_start {
            only_toast(
                App { view: Screen::List, spawn: SpawnState { agents: agents, ..mid.spawn }, ..mid },
                new,
                "no running agents and no [[delegate.agents]] to start"@,
                true,
            )
        } else {
            new == (App { spawn: SpawnState { agents: agents, ..mid.spawn }, ..mid })
        },
        Err(e) => if can_start {
            new == (App {
                toast: new.toast,
                toast_seq: new.toast_seq,
                spawn: SpawnState { agents: new.spawn.agents, ..mid.spawn },
                ..mid
            })
                && new.spawn.agents@.len() == 0 && toasted(
                mid,
                new,
                "list agents failed ("@ + e@ + "); start new is available"@,
                true,
            )
        } else {
            only_toast(App { view: Screen::List, ..mid }, new, "agents: "@ + e@, true)
        },
    }
}

pub open spec fn workspaces_answered(old: App, new: App, result: Result<Vec<HerdrWorkspace>, String>) -> bool {
    let mid = App { spawn: SpawnState { workspaces_loading: false, ..old.spawn }, ..old };
    if old.view != Screen::NewAgentWorkspacePicker {
        new == mid
    } else {
        match result {
            Ok(list) => if list@.len() == 0 {
                only_toast(
                    App { view: Screen::NewAgentTypePicker, ..mid },
                    new,
                    "no workspaces found in herdr"@,
                    true,
                )
            } else {
                new == (App {
                    picker_sel: preferred_workspace(list@, old.env.workspace_id@) as usize,
                    spawn: SpawnState { workspaces: list, ..mid.spawn },
                    ..mid
                })
            },
            Err(e) => only_toast(
                App { view: Screen::NewAgentTypePicker, ..mid },
                new,
                "workspaces: "@ + e@,
                true,
            ),
        }
    }
}

pub open spec fn delegated(
    old: App,
    new: App,
    key: String,
    label: String,
    submitted: bool,
    result: Result<(), String>,
) -> bool {
    match result {
        Ok(()) => {
            let mid = with_toast(old, new);
            &&& toasted(
                old,
                mid,
                if submitted {
                    key@ + " delegated to "@ + label@
                } else {
                    key@ + " pasted into "@ + label@ + " — review and press Enter"@
                },
                false,
            )
            &&& new == (App { actions: new.actions, ..mid })
            &&& queued(mid, new)
            &&& last_action(new) matches Action::Notify { message } && message@ == (if submitted {
                "Jira "@ + key@ + " delegated to "@ + label@
            } else {
                "Jira "@ + key@ + " pasted into "@ + label@
            })
        },
        Err(e) => only_toast(old, new, "delegate "@ + key@ + ": "@ + e@, true),
    }
}

pub open spec fn children_answered(old: App, new: App, epic: String, result: Result<Vec<Issue>, String>) -> bool {
    &&& !new.list.loading_children.has(epic@)
    &&& forall|j: Seq<char>|
        j != epic@ ==> #[trigger] new.list.loading_children.has(j) == old.list.loading_children.has(j)
    &&& match result {
        Ok(kids) => if kids@.len() == 0 {
            only_toast(
                App {
                    list: ListState { loading_children: new.list.loading_children, ..old.list },
                    ..old
                },
                new,
                epic@ + ": no issues in this epic"@,
                false,
            )
        } else {
            &&& new == (App {
                list: ListState {
                    loading_children: new.list.loading_children,
                    children: new.list.children,
                    expanded: new.list.expanded,
                    ..old.list
                },
                ..old
            })
            &&& new.list.children.lookup(epic@) == Some(kids)
            &&& new.list.expanded.has(epic@)
            &&& forall|j: Seq<char>|
                j != epic@ ==> #[trigger] new.list.children.lookup(j) == old.list.children.lookup(j)
                    && new.list.expanded.has(j) == old.list.expanded.has(j)
        },
        Err(e) => only_toast(
            App {
                list: ListState { loading_children: new.list.loading_children, ..old.list },
                ..old
            },
            new,
            epic@ + ": children: "@ + e@,
            true,
        ),
    }
}

pub open spec fn comments_answered(old: App, new: App, key: String, result: Result<Vec<Comment>, String>) -> bool {
    &&& !new.detail.comments_loading.has(key@)
    &&& forall|j: Seq<char>|
        j != key@ ==> #[trigger] new.detail.comments_loading.has(j) == old.detail.comments_loading.has(j)
    &&& new == (App {
        detail: DetailState {
            comments_loading: new.detail.comments_loading,
            comments: new.detail.comments,
            comments_err: new.detail.comments_err,
            ..old.detail
        },
        ..old
    })
    &&& forall|j: Seq<char>|
        j != key@ ==> #[trigger] new.detail.comments.lookup(j) == old.detail.comments.lookup(j)
            && new.detail.comments_err.lookup(j) == old.detail.comments_err.lookup(j)
    &&& match result {
        Ok(list) => new.detail.comments.lookup(key@) == Some(list) && new.detail.comments_err.lookup(key@) is None,
        Err(e) => new.detail.comments.lookup(key@) == old.detail.comments.lookup(key@)
            && new.detail.comments_err.lookup(key@) == Some(e),
    }
}

impl App {
    pub fn on_issues(&mut self, title: String, result: Result<Vec<Issue>, String>)
        ensures
            issues_answered(*old(self), *final(self), title, result),
    {
        self.list.loading = false;
        match result {
            Ok(issues) => {
                self.list.current_title = title;
                let n = issues.len();
                self.list.issues = issues;
                self.list.children.clear();
                self.list.expanded.clear();
                self.list.loading_children.clear();
                self.list.selected = if n == 0 {
                    0
                } else if self.list.selected < n {
                    self.list.selected
                } else {
                    n - 1
                };
            },
            Err(e) => {
                self.toast(text2("Jira: ", &e), true);
            },
        }
    }

    pub fn on_transitions(&mut self, key: String, result: Result<Vec<Transition>, String>)
        ensures
            transitions_answered(*old(self), *final(self), key, result),
    {
        if !crate::branch::vec_equal(
            &chars_of(key.as_str()),
            &chars_of(self.transition.transitions_for.as_str()),
        ) {
            return;
        }
        self.transition.transitions_loading = false;
        match result {
            Ok(ts) => {
                self.transition.transitions = ts;
            },
            Err(e) => {
                self.view = Screen::List;
                self.toast(text3(&key, ": transitions: ", &e), true);
            },
        }
    }

    pub fn on_transitioned(&mut self, key: String, name: String, result: Result<(), String>)
        ensures
            transitioned(*old(self), *final(self), key, name, result),
    {
        match result {
            Ok(()) => {
                self.detail.comments.remove(key.as_str());
                self.detail.comments_err.remove(key.as_str());
                self.toast(text3(&key, " → ", &name), false);
                let ghost mid = *self;
                let idx = self.list.filter_idx;
                self.load_filter(idx);
                assert(mid == (App { list: ListState { filter_idx: idx, ..mid.list }, ..mid }));
                assert(mid == (App {
                    toast: mid.toast,
                    toast_seq: mid.toast_seq,
                    detail: DetailState {
                        comments: mid.detail.comments,
                        comments_err: mid.detail.comments_err,
                        ..(*old(self)).detail
                    },
                    ..*old(self)
                }));
                assert(forall|j: Seq<char>|
                    j != key@ ==> #[trigger] mid.detail.comments.lookup(j) == old(self).detail.comments.lookup(j)
                        && mid.detail.comments_err.lookup(j) == old(self).detail.comments_err.lookup(j));
            },
            Err(e) => {
                self.toast(text3(&key, ": ", &e), true);
            },
        }
    }

    pub fn on_agents(&mut self, result: Result<Vec<HerdrAgent>, String>)
        ensures
            agents_answered(*old(self), *final(self), result),
    {
        self.spawn.agents_loading = false;
        match result {
            Ok(agents) => {
                let empty = agents.len() == 0;
                self.spawn.agents = agents;
                if empty && !self.can_start_new_agent() {
                    self.view = Screen::List;
                    self.toast(owned("no running agents and no [[delegate.agents]] to start"), true);
                }
            },
            Err(e) => {
                if self.can_start_new_agent() {
                    self.spawn.agents.clear();
                    let mut m = chars_of("list agents failed (");
                    push_string(&mut m, &e);
                    push_str(&mut m, "); start new is available");
                    self.toast(string_of(&m), true);
                } else {
                    self.view = Screen::List;
                    self.toast(text2("agents: ", &e), true);
                }
            },
        }
    }

    pub fn on_workspaces(&mut self, result: Result<Vec<HerdrWorkspace>, String>)
        ensures
            workspaces_answered(*old(self), *final(self), result),
    {
        self.spawn.workspaces_loading = false;
        if self.view != Screen::NewAgentWorkspacePicker {
            return;
        }
        match result {
            Ok(list) => {
                if list.len() == 0 {
                    self.view = Screen::NewAgentTypePicker;
                    self.toast(owned("no workspaces found in herdr"), true);
                } else {
                    self.picker_sel = preferred_index(&list, &self.env.workspace_id);
                    self.spawn.workspaces = list;
                }
            },
            Err(e) => {
                self.view = Screen::NewAgentTypePicker;
                self.toast(text2("workspaces: ", &e), true);
            },
        }
    }

    pub fn on_delegated(&mut self, key: String, label: String, submitted: bool, result: Result<(), String>)
        ensures
            delegated(*old(self), *final(self), key, label, submitted, result),
    {
        match result {
            Ok(()) => {
                if submitted {
                    self.toast(text3(&key, " delegated to ", &label), false);
                    let mut m = chars_of("Jira ");
                    push_string(&mut m, &key);
                    push_str(&mut m, " delegated to ");
                    push_string(&mut m, &label);
                    self.queue(Action::Notify { message: string_of(&m) });
                } else {
                    let mut t = chars_of(key.as_str());
                    push_str(&mut t, " pasted into ");
                    push_string(&mut t, &label);
                    push_str(&mut t, " — review and press Enter");
                    self.toast(string_of(&t), false);
                    let mut m = chars_of("Jira ");
                    push_string(&mut m, &key);
                    push_str(&mut m, " pasted into ");
                    push_string(&mut m, &label);
                    self.queue(Action::Notify { message: string_of(&m) });
                }
            },
            Err(e) => {
                let mut m = chars_of("delegate ");
                push_string(&mut m, &key);
                push_str(&mut m, ": ");
                push_string(&mut m, &e);
                self.toast(string_of(&m), true);
            },
        }
    }

    pub fn on_worktree_opened(&mut self, branch: String, result: Result<String, String>)
        ensures
            match result {
                Ok(path) => only_toast(
                    *old(self),
                    *final(self),
                    "worktree "@ + branch@ + " ready: "@ + crate::naming::home_short(
                        path@,
                        crate::pane::flow::home_text(old(self).env),
                    ),
                    false,
                ),
                Err(e) => only_toast(
                    *old(self),
                    *final(self),
                    "worktree "@ + branch@ + ": "@ + e@,
                    true,
                ),
            },
    {
        match result {
            Ok(path) => {
                let home = match &self.env.home {
                    Some(h) => h.clone(),
                    None => String::new(),
                };
                let shown = crate::naming::short_home(path.as_str(), home.as_str());
                let mut m = chars_of("worktree ");
                push_string(&mut m, &branch);
                push_str(&mut m, " ready: ");
                push_string(&mut m, &shown);
                self.toast(string_of(&m), false);
            },
            Err(e) => {
                let mut m = chars_of("worktree ");
                push_string(&mut m, &branch);
                push_str(&mut m, ": ");
                push_string(&mut m, &e);
                self.toast(string_of(&m), true);
            },
        }
    }

    pub fn on_children(&mut self, epic: String, result: Result<Vec<Issue>, String>)
        ensures
            children_answered(*old(self), *final(self), epic, result),
    {
        self.list.loading_children.remove(epic.as_str());
        match result {
            Ok(kids) => {
                if kids.len() == 0 {
                    self.toast(text3(&epic, ": no issues in this epic", &String::new()), false);
                } else {
                    self.list.children.insert(epic.clone(), kids);
                    self.list.expanded.insert(epic);
                }
            },
            Err(e) => {
                self.toast(text3(&epic, ": children: ", &e), true);
            },
        }
    }

    pub fn on_comments(&mut self, key: String, result: Result<Vec<Comment>, String>)
        ensures
            comments_answered(*old(self), *final(self), key, result),
    {
        self.detail.comments_loading.remove(key.as_str());
        match result {
            Ok(list) => {
                self.detail.comments_err.remove(key.as_str());
                self.detail.comments.insert(key, list);
            },
            Err(e) => {
                self.detail.comments_err.insert(key, e);
            },
        }
    }

    /// Apply an answer.
    pub fn on_resp(&mut self, resp: Resp)
        ensures
            match resp {
                Resp::Issues { title, result } => issues_answered(*old(self), *final(self), title, result),
                Resp::Transitions { key, result } => transitions_answered(
                    *old(self),
                    *final(self),
                    key,
                    result,
                ),
                Resp::Transitioned { key, name, result } => transitioned(
                    *old(self),
                    *final(self),
                    key,
                    name,
                    result,
                ),
                Resp::Agents(result) => agents_answered(*old(self), *final(self), result),
                Resp::Workspaces(result) => workspaces_answered(*old(self), *final(self), result),
                Resp::Delegated { key, label, submitted, result } => delegated(
                    *old(self),
                    *final(self),
                    key,
                    label,
                    submitted,
                    result,
                ),
                Resp::WorktreeOpened { branch, result } => match result {
                    Ok(path) => only_toast(
                        *old(self),
                        *final(self),
                        "worktree "@ + branch@ + " ready: "@ + crate::naming::home_short(
                            path@,
                            crate::pane::flow::home_text(old(self).env),
                        ),
                        false,
                    ),
                    Err(e) => only_toast(
                        *old(self),
                        *final(self),
                        "worktree "@ + branch@ + ": "@ + e@,
                        true,
                    ),
                },
                Resp::Projects(result) => (!old(self).wt.wt_projects_loading
                    || !crate::pane::flow::worktree_screen(old(self).view) ==> *final(self)
                    == *old(self)) && (old(self).wt.wt_projects_loading
                    && crate::pane::flow::worktree_screen(old(self).view) ==> {
                    let mid = App {
                        wt: WorktreeState { wt_projects_loading: false, ..(*old(self)).wt },
                        ..*old(self)
                    };
                    match result {
                        Ok(ps) => *final(self) == (App {
                            picker_sel: if old(self).view == Screen::WorktreeProjectPicker {
                                crate::pane::flow::current_pos(ps@) as usize
                            } else {
                                old(self).picker_sel
                            },
                            wt: WorktreeState { wt_projects: ps, ..mid.wt },
                            ..mid
                        }),
                        Err(e) => only_toast(mid, *final(self), "herdr projects: "@ + e@, true),
                    }
                }),
                Resp::RepoWorktrees { repo, result } => (!old(self).wt.wt_worktrees_loading || repo@
                    != old(self).wt.wt_repo@ || !crate::pane::flow::worktree_screen(old(self).view)
                    ==> *final(self) == *old(self)) && (old(self).wt.wt_worktrees_loading && repo@
                    == old(self).wt.wt_repo@ && crate::pane::flow::worktree_screen(old(self).view)
                    ==> {
                    let mid = App {
                        wt: WorktreeState { wt_worktrees_loading: false, ..(*old(self)).wt },
                        ..*old(self)
                    };
                    match result {
                        Ok(ws) => {
                            let pos = crate::pane::flow::branch_pos(ws@, old(self).wt.wt_default_branch@);
                            *final(self) == (App {
                                picker_sel: if old(self).view == Screen::WorktreeListPicker {
                                    if pos < ws@.len() {
                                        (pos + 1) as usize
                                    } else {
                                        0usize
                                    }
                                } else {
                                    old(self).picker_sel
                                },
                                wt: WorktreeState { wt_worktrees: ws, ..mid.wt },
                                ..mid
                            })
                        },
                        Err(e) => only_toast(mid, *final(self), "worktrees: "@ + e@, true),
                    }
                }),
                Resp::Children { epic, result } => children_answered(
                    *old(self),
                    *final(self),
                    epic,
                    result,
                ),
                Resp::Comments { key, result } => comments_answered(
                    *old(self),
                    *final(self),
                    key,
                    result,
                ),
                Resp::Zoomed(result) => match result {
                    Ok(()) => *final(self) == *old(self),
                    Err(e) => only_toast(*old(self), *final(self), "zoom: "@ + e@, true),
                },
            },
    {
        match resp {
            Resp::Issues { title, result } => self.on_issues(title, result),
            Resp::Transitions { key, result } => self.on_transitions(key, result),
            Resp::Transitioned { key, name, result } => self.on_transitioned(key, name, result),
            Resp::Agents(result) => self.on_agents(result),
            Resp::Workspaces(result) => self.on_workspaces(result),
            Resp::Delegated { key, label, submitted, result } => self.on_delegated(
                key,
                label,
                submitted,
                result,
            ),
            Resp::WorktreeOpened { branch, result } => self.on_worktree_opened(branch, result),
            Resp::Projects(result) => self.on_projects(result),
            Resp::RepoWorktrees { repo, result } => self.on_repo_worktrees(repo, result),
            Resp::Children { epic, result } => self.on_children(epic, result),
            Resp::Comments { key, result } => self.on_comments(key, result),
            Resp::Zoomed(result) => match result {
                Ok(()) => {},
                Err(e) => {
                    self.toast(text2("zoom: ", &e), true);
                },
            },
        }
    }
}

} // verus!

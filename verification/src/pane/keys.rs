//! What each key does, screen by screen.

use vstd::prelude::*;
use crate::herdr::{HerdrAgent, WorktreeOpts};
use crate::pane::flow::{
    copy_agent, copy_spawn, copy_transition, copy_workspace, result_view,
    back_to_projects, back_to_worktrees, browser_opened, comments_fetched, cwd_input_opened,
    cwd_picker_opened, delegated_to, epic_collapsed, epic_expanded, expand, filter_loaded,
    name_input_opened, new_agent_started, only_toast, repo_chosen, repo_input_opened, resolves,
    search_run, searched, transition_applied, transitions_requested, agents_requested,
    type_picker_opened, workspace_picker_opened, worktree_agent_started, worktree_only_opened,
    worktree_opened, zoom_toggled,
};
use crate::pane::paths::{opts_view, resolve_cwd, worktree_opts, worktree_opts_of};
use crate::pane::{
    Action, App, DetailState, Key, KeyCode, ListState, Screen, SpawnState, WorktreeState,
    home_of, last_action, queued,
};
use crate::text::{chars_of, slice_vec, string_of, trim_vec, trim_ws};

verus! {

/// `sel` moved by `delta` rows within a list of `len` rows.
pub open spec fn moved(len: int, sel: int, delta: int) -> int {
    if len <= 0 {
        0
    } else if sel + delta < 0 {
        0
    } else if sel + delta > len - 1 {
        len - 1
    } else {
        sel + delta
    }
}

/// The row a number key `1`-`9` picks in a picker of `len` rows.
pub open spec fn digit_pick(code: KeyCode, len: int) -> Option<int> {
    match code {
        KeyCode::Char(c) => if '1' <= c && c <= '9' && (c as int) - 49 < len {
            Some((c as int) - 49)
        } else {
            None
        },
        _ => None,
    }
}

pub open spec fn is_char(code: KeyCode, c: char) -> bool {
    code == KeyCode::Char(c)
}

/// A text field after an editing key: Backspace drops the last character,
/// Ctrl-U (when `clears`) empties it, a character is appended.
pub open spec fn edited(text: Seq<char>, key: Key, clears: bool) -> Seq<char> {
    match key.code {
        KeyCode::Backspace => if text.len() > 0 {
            text.drop_last()
        } else {
            text
        },
        KeyCode::Char(c) => if clears && c == 'u' && key.ctrl {
            Seq::empty()
        } else {
            text.push(c)
        },
        _ => text,
    }
}

pub open spec fn is_edit(key: Key) -> bool {
    key.code is Backspace || key.code is Char
}

/// `new` is `old` on screen `v`.
pub open spec fn shows(old: App, new: App, v: Screen) -> bool {
    new == (App { view: v, ..old })
}

pub open spec fn selects(old: App, new: App, sel: int) -> bool {
    new == (App { picker_sel: sel as usize, ..old })
}

/// The key moves the picker selection in a list of `len` rows.
pub open spec fn picker_moves(old: App, new: App, key: Key, len: int) -> bool {
    &&& (is_char(key.code, 'j') || key.code is Down) ==> selects(old, new, moved(len, old.picker_sel as int, 1))
    &&& (is_char(key.code, 'k') || key.code is Up) ==> selects(old, new, moved(len, old.picker_sel as int, -1))
}

pub open spec fn is_move(code: KeyCode) -> bool {
    is_char(code, 'j') || code is Down || is_char(code, 'k') || code is Up
}

pub open spec fn is_back(code: KeyCode) -> bool {
    code is Esc || is_char(code, 'q')
}

fn key_is(key: Key, c: char) -> (b: bool)
    ensures
        b == is_char(key.code, c),
{
    match key.code {
        KeyCode::Char(k) => k == c,
        _ => false,
    }
}

fn pop_char(s: &mut String)
    ensures
        final(s)@ == (if old(s)@.len() > 0 {
            old(s)@.drop_last()
        } else {
            old(s)@
        }),
{
    let v = chars_of(s.as_str());
    if v.len() > 0 {
        let t = slice_vec(&v, 0, v.len() - 1);
        assert(t@ =~= v@.drop_last());
        *s = string_of(&t);
    }
}

fn push_char(s: &mut String, c: char)
    ensures
        final(s)@ == old(s)@.push(c),
{
    let mut v = chars_of(s.as_str());
    v.push(c);
    *s = string_of(&v);
}

/// Apply an editing key to a text field.
fn edit_text(s: &mut String, key: Key, clears: bool)
    requires
        is_edit(key),
    ensures
        final(s)@ == edited(old(s)@, key, clears),
{
    match key.code {
        KeyCode::Backspace => pop_char(s),
        KeyCode::Char(c) => {
            if clears && c == 'u' && key.ctrl {
                *s = String::new();
            } else {
                push_char(s, c);
            }
        },
        _ => {},
    }
}

// ---------------------------------------------------------------------------
// what each screen does with a key

/// List keys that move the selection or quit.
pub open spec fn is_list_move(c: KeyCode) -> bool {
    is_char(c, 'q') || is_char(c, 'j') || c is Down || is_char(c, 'k') || c is Up || c is PageDown
        || c is PageUp || is_char(c, 'g') || c is Home || is_char(c, 'G') || c is End
}

/// List keys that open something or load issues.
pub open spec fn is_list_open(c: KeyCode) -> bool {
    is_char(c, 'l') || c is Right || is_char(c, 'h') || c is Left || c is Enter || is_char(c, 'f')
        || digit_pick(c, 9) is Some || is_char(c, '/') || is_char(c, 'J') || is_char(c, 'r')
        || is_char(c, 'R')
}

pub open spec fn list_move_key(old: App, new: App, key: Key) -> bool {
    let n = old.rows().len() as int;
    let c = key.code;
    if is_char(c, 'q') {
        new == (App { should_quit: true, ..old })
    } else if is_char(c, 'j') || c is Down {
        new == (App {
            list: ListState { selected: moved(n, old.list.selected as int, 1) as usize, ..old.list },
            ..old
        })
    } else if is_char(c, 'k') || c is Up {
        new == (App {
            list: ListState {
                selected: moved(n, old.list.selected as int, -1) as usize,
                ..old.list
            },
            ..old
        })
    } else if c is PageDown {
        new == (App {
            list: ListState {
                selected: moved(n, old.list.selected as int, 15) as usize,
                ..old.list
            },
            ..old
        })
    } else if c is PageUp {
        new == (App {
            list: ListState {
                selected: moved(n, old.list.selected as int, -15) as usize,
                ..old.list
            },
            ..old
        })
    } else if is_char(c, 'g') || c is Home {
        new == (App { list: ListState { selected: 0, ..old.list }, ..old })
    } else {
        new == (App {
            list: ListState { selected: if n > 0 { (n - 1) as usize } else { 0 }, ..old.list },
            ..old
        })
    }
}

pub open spec fn list_open_key(old: App, new: App, key: Key) -> bool {
    let c = key.code;
    if is_char(c, 'l') || c is Right {
        epic_expanded(old, new)
    } else if is_char(c, 'h') || c is Left {
        epic_collapsed(old, new)
    } else if c is Enter {
        detail_opened(old, new)
    } else if is_char(c, 'f') {
        new == (App { picker_sel: old.list.filter_idx, view: Screen::FilterPicker, ..old })
    } else if digit_pick(c, 9) is Some {
        let idx = digit_pick(c, 9)->0;
        if idx < old.cfg.filters@.len() {
            filter_loaded(old, new, idx as usize)
        } else {
            new == old
        }
    } else if is_char(c, '/') {
        new == (App {
            view: Screen::SearchInput,
            list: ListState { search_input: new.list.search_input, ..old.list },
            ..old
        })
            && new.list.search_input@.len() == 0
    } else if is_char(c, 'J') {
        new == (App {
            view: Screen::JqlInput,
            list: ListState { jql_input: old.list.last_jql, ..old.list },
            ..old
        })
    } else if is_char(c, 'r') {
        refreshed(old, new)
    } else {
        reload_asked(old, new)
    }
}

/// Enter on the list: the detail view of the selected issue, its comments
/// fetched.
pub open spec fn detail_opened(old: App, new: App) -> bool {
    match old.selection() {
        Some(issue) => comments_fetched(
            App {
                view: Screen::Detail,
                detail: DetailState {
                    detail_scroll: 0,
                    detail_focus_comments: false,
                    comment_scroll: 0,
                    ..old.detail
                },
                ..old
            },
            new,
            issue.key,
        ),
        None => new == old,
    }
}

/// `r`: forget cached comments and reload the filter.
pub open spec fn refreshed(old: App, new: App) -> bool {
    let mid = App {
        detail: DetailState {
            comments: new.detail.comments,
            comments_err: new.detail.comments_err,
            ..old.detail
        },
        ..old
    };
    &&& forall|k: Seq<char>|
        #![trigger new.detail.comments.lookup(k)]
        #![trigger new.detail.comments_err.lookup(k)]
        new.detail.comments.lookup(k) is None && new.detail.comments_err.lookup(k) is None
    &&& filter_loaded(mid, new, old.list.filter_idx)
}

/// `R`: the config is to be loaded again.
pub open spec fn reload_asked(old: App, new: App) -> bool {
    let mid = App { actions: new.actions, ..old };
    &&& queued(old, mid)
    &&& last_action(new) is ReloadConfig
    &&& only_toast(mid, new, "config reloaded"@, false)
}

pub open spec fn list_command_key(old: App, new: App, key: Key) -> bool {
    let c = key.code;
    if is_char(c, 's') {
        transitions_requested(old, new)
    } else if is_char(c, 'd') {
        agents_requested(old, new)
    } else if is_char(c, 'w') {
        worktree_opened(old, new)
    } else if is_char(c, 'o') {
        browser_opened(old, new)
    } else if is_char(c, 'z') {
        zoom_toggled(old, new)
    } else if is_char(c, '?') {
        shows(old, new, Screen::Help)
    } else {
        new == old
    }
}

pub open spec fn list_key(old: App, new: App, key: Key) -> bool {
    if is_list_move(key.code) {
        list_move_key(old, new, key)
    } else if is_list_open(key.code) {
        list_open_key(old, new, key)
    } else {
        list_command_key(old, new, key)
    }
}

pub open spec fn scrolled(s: u16, delta: int) -> u16 {
    if s + delta < 0 {
        0
    } else if s + delta > u16::MAX {
        u16::MAX
    } else {
        (s + delta) as u16
    }
}

/// `old` with the scroll of the focused detail pane at `v`.
pub open spec fn with_scroll(old: App, v: u16) -> App {
    if old.detail.detail_focus_comments {
        App { detail: DetailState { comment_scroll: v, ..old.detail }, ..old }
    } else {
        App { detail: DetailState { detail_scroll: v, ..old.detail }, ..old }
    }
}

pub open spec fn focused_scroll_of(app: App) -> u16 {
    if app.detail.detail_focus_comments {
        app.detail.comment_scroll
    } else {
        app.detail.detail_scroll
    }
}

pub open spec fn detail_key(old: App, new: App, key: Key) -> bool {
    let c = key.code;
    let s = focused_scroll_of(old);
    if is_back(c) {
        shows(old, new, Screen::List)
    } else if c is Tab {
        new == (App {
            detail: DetailState {
                detail_focus_comments: !old.detail.detail_focus_comments,
                ..old.detail
            },
            ..old
        })
    } else if is_char(c, 'j') || c is Down {
        new == with_scroll(old, scrolled(s, 1))
    } else if is_char(c, 'k') || c is Up {
        new == with_scroll(old, scrolled(s, -1))
    } else if c is PageDown {
        new == with_scroll(old, scrolled(s, 15))
    } else if c is PageUp {
        new == with_scroll(old, scrolled(s, -15))
    } else if is_char(c, 'g') {
        new == with_scroll(old, 0)
    } else if is_char(c, 's') {
        transitions_requested(old, new)
    } else if is_char(c, 'd') {
        agents_requested(old, new)
    } else if is_char(c, 'w') {
        worktree_opened(old, new)
    } else if is_char(c, 'o') {
        browser_opened(old, new)
    } else if is_char(c, 'z') {
        zoom_toggled(old, new)
    } else {
        new == old
    }
}

pub open spec fn filter_picker_key(old: App, new: App, key: Key) -> bool {
    let n = old.cfg.filters@.len() as int;
    let mid = App { view: Screen::List, ..old };
    if digit_pick(key.code, n) is Some {
        filter_loaded(mid, new, digit_pick(key.code, n)->0 as usize)
    } else if is_back(key.code) {
        new == mid
    } else if is_move(key.code) {
        picker_moves(old, new, key, n)
    } else if key.code is Enter {
        filter_loaded(mid, new, old.picker_sel)
    } else {
        new == old
    }
}

pub open spec fn transition_picker_key(old: App, new: App, key: Key) -> bool {
    let n = old.transition.transitions@.len() as int;
    let mid = App { view: Screen::List, ..old };
    if digit_pick(key.code, n) is Some {
        transition_applied(mid, new, old.transition.transitions@[digit_pick(key.code, n)->0])
    } else if is_back(key.code) {
        new == mid
    } else if is_move(key.code) {
        picker_moves(old, new, key, n)
    } else if key.code is Enter {
        if old.picker_sel < n {
            transition_applied(mid, new, old.transition.transitions@[old.picker_sel as int])
        } else {
            new == old
        }
    } else {
        new == old
    }
}

pub open spec fn agent_offset(app: App) -> int {
    if app.cfg.delegate.agents@.len() > 0 {
        1
    } else {
        0
    }
}

/// Row `row` of the agent picker: "start new", or a running agent.
pub open spec fn agent_row_picked(old: App, new: App, row: int) -> bool {
    let off = agent_offset(old);
    if off > 0 && row == 0 {
        type_picker_opened(old, new)
    } else if 0 <= row - off < old.spawn.agents@.len() {
        delegated_to(App { view: Screen::List, ..old }, new, old.spawn.agents@[row - off])
    } else {
        new == old
    }
}

pub open spec fn agent_picker_key(old: App, new: App, key: Key) -> bool {
    let n = agent_offset(old) + old.spawn.agents@.len();
    if digit_pick(key.code, n) is Some {
        agent_row_picked(old, new, digit_pick(key.code, n)->0)
    } else if is_back(key.code) {
        shows(old, new, Screen::List)
    } else if is_char(key.code, 'n') {
        type_picker_opened(old, new)
    } else if is_move(key.code) {
        picker_moves(old, new, key, n)
    } else if key.code is Enter {
        agent_row_picked(old, new, old.picker_sel as int)
    } else {
        new == old
    }
}

pub open spec fn type_picker_key(old: App, new: App, key: Key) -> bool {
    let agents = old.cfg.delegate.agents@;
    let n = agents.len() as int;
    if digit_pick(key.code, n) is Some {
        workspace_picker_opened(old, new, agents[digit_pick(key.code, n)->0])
    } else if is_back(key.code) {
        new == (App { picker_sel: 0, view: Screen::AgentPicker, ..old })
    } else if is_move(key.code) {
        picker_moves(old, new, key, n)
    } else if key.code is Enter {
        if old.picker_sel < n {
            workspace_picker_opened(old, new, agents[old.picker_sel as int])
        } else {
            new == old
        }
    } else {
        new == old
    }
}

pub open spec fn workspace_row_picked(old: App, new: App, row: int) -> bool {
    if 0 <= row < old.spawn.workspaces@.len() {
        cwd_picker_opened(App {
            spawn: SpawnState { pending_workspace: Some(old.spawn.workspaces@[row]), ..old.spawn },
            ..old
        }, new)
    } else {
        new == old
    }
}

pub open spec fn workspace_picker_key(old: App, new: App, key: Key) -> bool {
    let n = old.spawn.workspaces@.len() as int;
    if old.spawn.workspaces_loading {
        if is_back(key.code) {
            shows(old, new, Screen::NewAgentTypePicker)
        } else {
            new == old
        }
    } else if digit_pick(key.code, n) is Some {
        workspace_row_picked(old, new, digit_pick(key.code, n)->0)
    } else if is_back(key.code) {
        new == (App { picker_sel: 0, view: Screen::NewAgentTypePicker, ..old })
    } else if is_move(key.code) {
        picker_moves(old, new, key, n)
    } else if key.code is Enter {
        workspace_row_picked(old, new, old.picker_sel as int)
    } else {
        new == old
    }
}

/// The first workspace with id `id` (`len` if none).
pub open spec fn workspace_pos(ws: Seq<crate::herdr::HerdrWorkspace>, id: Seq<char>) -> int
    decreases ws.len(),
{
    if ws.len() == 0 {
        0
    } else if ws[0].id@ == id {
        0
    } else {
        1 + workspace_pos(ws.drop_first(), id)
    }
}

pub open spec fn cwd_row_picked(old: App, new: App, row: int) -> bool {
    if row >= old.spawn.cwd_choices@.len() {
        cwd_input_opened(old, new)
    } else {
        new_agent_started(App { view: Screen::List, ..old }, new, old.spawn.cwd_choices@[row])
    }
}

pub open spec fn cwd_picker_key(old: App, new: App, key: Key) -> bool {
    let n = old.spawn.cwd_choices@.len() + 1int;
    if digit_pick(key.code, n) is Some {
        cwd_row_picked(old, new, digit_pick(key.code, n)->0)
    } else if is_back(key.code) {
        let back = match old.spawn.pending_workspace {
            Some(pw) => if workspace_pos(old.spawn.workspaces@, pw.id@) < old.spawn.workspaces@.len() {
                workspace_pos(old.spawn.workspaces@, pw.id@)
            } else {
                0
            },
            None => 0,
        };
        new == (App { picker_sel: back as usize, view: Screen::NewAgentWorkspacePicker, ..old })
    } else if is_move(key.code) {
        picker_moves(old, new, key, n)
    } else if is_char(key.code, '/') || is_char(key.code, 'e') {
        cwd_input_opened(old, new)
    } else if key.code is Enter {
        cwd_row_picked(old, new, old.picker_sel as int)
    } else {
        new == old
    }
}

pub open spec fn cwd_input_key(old: App, new: App, key: Key) -> bool {
    if key.code is Esc {
        shows(old, new, Screen::NewAgentCwdPicker)
    } else if key.code is Enter {
        let cwd = trim_ws(old.spawn.cwd_input@);
        if cwd.len() == 0 {
            only_toast(old, new, "cwd is empty"@, true)
        } else {
            exists|s: String|
                s@ == cwd && #[trigger] new_agent_started(App { view: Screen::List, ..old }, new, s)
        }
    } else if is_edit(key) {
        new == (App { spawn: SpawnState { cwd_input: new.spawn.cwd_input, ..old.spawn }, ..old }) && new.spawn.cwd_input@ == edited(
            old.spawn.cwd_input@,
            key,
            true,
        )
    } else {
        new == old
    }
}

pub open spec fn project_row_picked(old: App, new: App, row: int) -> bool {
    if 0 <= row < old.wt.wt_projects@.len() {
        let p = old.wt.wt_projects@[row];
        exists|r: Result<Seq<char>, Seq<char>>|
            resolves(p.root@, home_of(old), r) && #[trigger] repo_chosen(
                old,
                new,
                r,
                "repo: "@,
                Some(p.name@),
            )
    } else {
        repo_input_opened(old, new)
    }
}

pub open spec fn project_picker_key(old: App, new: App, key: Key) -> bool {
    let n = old.wt.wt_projects@.len() + 1int;
    if digit_pick(key.code, n) is Some {
        project_row_picked(old, new, digit_pick(key.code, n)->0)
    } else if is_back(key.code) {
        shows(old, new, Screen::List)
    } else if is_move(key.code) {
        picker_moves(old, new, key, n)
    } else if is_char(key.code, '/') || is_char(key.code, 'e') {
        repo_input_opened(old, new)
    } else if key.code is Enter {
        project_row_picked(old, new, old.picker_sel as int)
    } else {
        new == old
    }
}

pub open spec fn repo_input_key(old: App, new: App, key: Key) -> bool {
    if key.code is Esc {
        new == (App {
            picker_sel: old.wt.wt_projects@.len() as usize,
            view: Screen::WorktreeProjectPicker,
            ..old
        })
    } else if key.code is Enter {
        exists|r: Result<Seq<char>, Seq<char>>|
            resolves(old.spawn.cwd_input@, home_of(old), r) && #[trigger] repo_chosen(
                old,
                new,
                r,
                "repo: "@,
                None,
            )
    } else if is_edit(key) {
        new == (App { spawn: SpawnState { cwd_input: new.spawn.cwd_input, ..old.spawn }, ..old }) && new.spawn.cwd_input@ == edited(
            old.spawn.cwd_input@,
            key,
            true,
        )
    } else {
        new == old
    }
}

pub open spec fn worktree_row_picked(old: App, new: App, row: int) -> bool {
    if row == 0 {
        name_input_opened(App { wt: WorktreeState { wt_existing: false, ..old.wt }, ..old }, new)
    } else if 0 <= row - 1 < old.wt.wt_worktrees@.len() {
        new == (App {
            picker_sel: 0,
            view: Screen::WorktreeAgentPicker,
            wt: WorktreeState {
                wt_branch: old.wt.wt_worktrees@[row - 1].branch,
                wt_existing: true,
                ..old.wt
            },
            ..old
        })
    } else {
        new == old
    }
}

pub open spec fn worktree_list_key(old: App, new: App, key: Key) -> bool {
    let n = old.wt.wt_worktrees@.len() + 1int;
    if digit_pick(key.code, n) is Some {
        worktree_row_picked(old, new, digit_pick(key.code, n)->0)
    } else if is_back(key.code) {
        if old.wt.wt_project_asked {
            back_to_projects(old, new)
        } else {
            shows(old, new, Screen::List)
        }
    } else if is_move(key.code) {
        picker_moves(old, new, key, n)
    } else if key.code is Enter {
        worktree_row_picked(old, new, old.picker_sel as int)
    } else {
        new == old
    }
}

pub open spec fn name_key(old: App, new: App, key: Key) -> bool {
    if key.code is Esc {
        back_to_worktrees(old, new, None)
    } else if key.code is Enter {
        let branch = crate::branch::sanitized(old.wt.wt_name_input@);
        if branch.len() == 0 {
            only_toast(old, new, "worktree name is not a valid git branch name"@, true)
        } else {
            new == (App {
                picker_sel: 0,
                view: Screen::WorktreeAgentPicker,
                wt: WorktreeState { wt_branch: new.wt.wt_branch, ..old.wt },
                ..old
            }) && new.wt.wt_branch@ == branch
        }
    } else if is_edit(key) {
        new == (App { wt: WorktreeState { wt_name_input: new.wt.wt_name_input, ..old.wt }, ..old }) && new.wt.wt_name_input@ == edited(
            old.wt.wt_name_input@,
            key,
            true,
        )
    } else {
        new == old
    }
}

/// Row `row` of the worktree agent picker: no agent (just open the
/// worktree), or start one of `[delegate].agents` in it.
pub open spec fn worktree_agent_row_picked(old: App, new: App, row: int) -> bool {
    let agents = old.cfg.delegate.agents@;
    if row < 0 || (row > 0 && row - 1 >= agents.len()) {
        new == old
    } else {
        match old.selection() {
            None => new == old,
            Some(issue) => {
                let mid = App { view: Screen::List, ..old };
                exists|o: WorktreeOpts|
                    opts_view(o) == worktree_opts_of(old.cfg, issue, old.wt.wt_branch@, home_of(old))
                        && #[trigger] worktree_opts_used(mid, new, o, row)
            },
        }
    }
}

pub open spec fn worktree_opts_used(mid: App, new: App, o: WorktreeOpts, row: int) -> bool {
    if row == 0 {
        worktree_only_opened(mid, new, o)
    } else {
        worktree_agent_started(mid, new, mid.cfg.delegate.agents@[row - 1], o)
    }
}

pub open spec fn worktree_agent_key(old: App, new: App, key: Key) -> bool {
    let n = old.cfg.delegate.agents@.len() + 1int;
    if digit_pick(key.code, n) is Some {
        worktree_agent_row_picked(old, new, digit_pick(key.code, n)->0)
    } else if is_back(key.code) {
        if old.wt.wt_existing {
            back_to_worktrees(old, new, Some(old.wt.wt_branch@))
        } else {
            shows(old, new, Screen::WorktreeNameInput)
        }
    } else if is_move(key.code) {
        picker_moves(old, new, key, n)
    } else if key.code is Enter {
        worktree_agent_row_picked(old, new, old.picker_sel as int)
    } else {
        new == old
    }
}

pub open spec fn search_key(old: App, new: App, key: Key) -> bool {
    let mid = App { view: Screen::List, ..old };
    if key.code is Esc {
        new == mid
    } else if key.code is Enter {
        let q = trim_ws(old.list.search_input@);
        if q.len() == 0 {
            new == mid
        } else {
            exists|s: String| s@ == q && #[trigger] search_run(mid, new, s)
        }
    } else if is_edit(key) {
        new == (App { list: ListState { search_input: new.list.search_input, ..old.list }, ..old }) && new.list.search_input@ == edited(
            old.list.search_input@,
            key,
            false,
        )
    } else {
        new == old
    }
}

pub open spec fn jql_key(old: App, new: App, key: Key) -> bool {
    let mid = App { view: Screen::List, ..old };
    if key.code is Esc {
        new == mid
    } else if key.code is Enter {
        let q = trim_ws(old.list.jql_input@);
        if q.len() == 0 {
            new == mid
        } else {
            searched(mid, new, expand(old.cfg, q), "custom JQL"@)
        }
    } else if is_edit(key) {
        new == (App { list: ListState { jql_input: new.list.jql_input, ..old.list }, ..old }) && new.list.jql_input@ == edited(
            old.list.jql_input@,
            key,
            true,
        )
    } else {
        new == old
    }
}

/// What a key does: Ctrl-C quits anywhere; on the full-screen error only
/// quitting and reloading the config work; otherwise the screen decides.
pub open spec fn key_handled(old: App, new: App, key: Key) -> bool {
    if is_char(key.code, 'c') && key.ctrl {
        new == (App { should_quit: true, ..old })
    } else if old.fatal is Some {
        if is_back(key.code) {
            new == (App { should_quit: true, ..old })
        } else if is_char(key.code, 'R') || is_char(key.code, 'r') {
            new == (App { actions: new.actions, ..old }) && queued(old, new)
                && last_action(new) is ReloadConfig
        } else {
            new == old
        }
    } else {
        match old.view {
            Screen::List => list_key(old, new, key),
            Screen::Detail => detail_key(old, new, key),
            Screen::FilterPicker => filter_picker_key(old, new, key),
            Screen::TransitionPicker => transition_picker_key(old, new, key),
            Screen::AgentPicker => agent_picker_key(old, new, key),
            Screen::NewAgentTypePicker => type_picker_key(old, new, key),
            Screen::NewAgentWorkspacePicker => workspace_picker_key(old, new, key),
            Screen::NewAgentCwdPicker => cwd_picker_key(old, new, key),
            Screen::NewAgentCwdInput => cwd_input_key(old, new, key),
            Screen::WorktreeProjectPicker => project_picker_key(old, new, key),
            Screen::WorktreeRepoInput => repo_input_key(old, new, key),
            Screen::WorktreeListPicker => worktree_list_key(old, new, key),
            Screen::WorktreeNameInput => name_key(old, new, key),
            Screen::WorktreeAgentPicker => worktree_agent_key(old, new, key),
            Screen::SearchInput => search_key(old, new, key),
            Screen::JqlInput => jql_key(old, new, key),
            Screen::Help => if is_back(key.code) || is_char(key.code, '?') {
                shows(old, new, Screen::List)
            } else {
                new == old
            },
        }
    }
}

impl App {
    /// `sel` moved by `delta` rows, kept within `len` rows.
    pub fn move_sel(len: usize, sel: usize, delta: i32) -> (r: usize)
        ensures
            r == moved(len as int, sel as int, delta as int),
    {
        if len == 0 {
            return 0;
        }
        let target: i128 = sel as i128 + delta as i128;
        if target < 0 {
            0
        } else if target > (len - 1) as i128 {
            len - 1
        } else {
            target as usize
        }
    }

    /// Number hotkeys shared by the pickers: `1`-`9` picks that row.
    pub fn picker_number(key: Key, len: usize) -> (r: Option<usize>)
        ensures
            match r {
                Some(i) => digit_pick(key.code, len as int) == Some(i as int),
                None => digit_pick(key.code, len as int) is None,
            },
    {
        match key.code {
            KeyCode::Char(c) => {
                if '1' <= c && c <= '9' {
                    let idx: usize = (c as u32 - 49) as usize;
                    if idx < len {
                        return Some(idx);
                    }
                }
                None
            },
            _ => None,
        }
    }

    /// Detail view: scroll offset of the pane that has focus.
    pub fn focused_scroll(&self) -> (r: u16)
        ensures
            r == focused_scroll_of(*self),
    {
        if self.detail.detail_focus_comments {
            self.detail.comment_scroll
        } else {
            self.detail.detail_scroll
        }
    }

    fn set_focused_scroll(&mut self, v: u16)
        ensures
            *final(self) == with_scroll(*old(self), v),
    {
        if self.detail.detail_focus_comments {
            self.detail.comment_scroll = v;
        } else {
            self.detail.detail_scroll = v;
        }
    }

    fn scroll_focused(&mut self, up: bool, by: u16)
        ensures
            *final(self) == with_scroll(
                *old(self),
                scrolled(focused_scroll_of(*old(self)), if up { -by } else { by as int }),
            ),
    {
        let s = self.focused_scroll();
        let v = if up {
            s.saturating_sub(by)
        } else {
            s.saturating_add(by)
        };
        self.set_focused_scroll(v);
    }

    pub fn keys_list(&mut self, key: Key)
        ensures
            list_key(*old(self), *final(self), key),
    {
        let c = key.code;
        if key_is(key, 'q') || key_is(key, 'j') || c == KeyCode::Down || key_is(key, 'k') || c
            == KeyCode::Up || c == KeyCode::PageDown || c == KeyCode::PageUp || key_is(key, 'g')
            || c == KeyCode::Home || key_is(key, 'G') || c == KeyCode::End {
            self.keys_list_move(key);
        } else if key_is(key, 'l') || c == KeyCode::Right || key_is(key, 'h') || c == KeyCode::Left
            || c == KeyCode::Enter || key_is(key, 'f') || Self::picker_number(key, 9).is_some()
            || key_is(key, '/') || key_is(key, 'J') || key_is(key, 'r') || key_is(key, 'R') {
            self.keys_list_open(key);
        } else {
            self.keys_list_command(key);
        }
    }

    fn keys_list_move(&mut self, key: Key)
        requires
            is_list_move(key.code),
        ensures
            list_move_key(*old(self), *final(self), key),
    {
        let vis_len = self.visible().len();
        let c = key.code;
        if key_is(key, 'q') {
            self.should_quit = true;
        } else if key_is(key, 'j') || c == KeyCode::Down {
            self.list.selected = Self::move_sel(vis_len, self.list.selected, 1);
        } else if key_is(key, 'k') || c == KeyCode::Up {
            self.list.selected = Self::move_sel(vis_len, self.list.selected, -1);
        } else if c == KeyCode::PageDown {
            self.list.selected = Self::move_sel(vis_len, self.list.selected, 15);
        } else if c == KeyCode::PageUp {
            self.list.selected = Self::move_sel(vis_len, self.list.selected, -15);
        } else if key_is(key, 'g') || c == KeyCode::Home {
            self.list.selected = 0;
        } else {
            self.list.selected = if vis_len > 0 {
                vis_len - 1
            } else {
                0
            };
        }
    }

    fn keys_list_open(&mut self, key: Key)
        requires
            is_list_open(key.code),
        ensures
            list_open_key(*old(self), *final(self), key),
    {
        let c = key.code;
        if key_is(key, 'l') || c == KeyCode::Right {
            self.expand_epic();
        } else if key_is(key, 'h') || c == KeyCode::Left {
            self.collapse_epic();
        } else if c == KeyCode::Enter {
            self.open_detail();
        } else if key_is(key, 'f') {
            self.picker_sel = self.list.filter_idx;
            self.view = Screen::FilterPicker;
        } else if Self::picker_number(key, 9).is_some() {
            let idx = match Self::picker_number(key, 9) {
                Some(i) => i,
                None => 0,
            };
            if idx < self.cfg.filters.len() {
                self.load_filter(idx);
            }
        } else if key_is(key, '/') {
            self.list.search_input = String::new();
            self.view = Screen::SearchInput;
        } else if key_is(key, 'J') {
            self.list.jql_input = self.list.last_jql.clone();
            self.view = Screen::JqlInput;
        } else if key_is(key, 'r') {
            self.refresh();
        } else {
            self.ask_reload();
        }
    }

    fn open_detail(&mut self)
        ensures
            detail_opened(*old(self), *final(self)),
    {
        let key_of = match self.selected_issue() {
            Some(issue) => Some(issue.key.clone()),
            None => None,
        };
        match key_of {
            Some(k) => {
                self.detail.detail_scroll = 0;
                self.detail.detail_focus_comments = false;
                self.view = Screen::Detail;
                self.detail.comment_scroll = 0;
                self.fetch_comments(k);
            },
            None => {},
        }
    }

    fn refresh(&mut self)
        ensures
            refreshed(*old(self), *final(self)),
    {
        self.detail.comments.clear();
        self.detail.comments_err.clear();
        let idx = self.list.filter_idx;
        self.load_filter(idx);
    }

    fn ask_reload(&mut self)
        ensures
            reload_asked(*old(self), *final(self)),
    {
        self.queue(Action::ReloadConfig);
        self.toast(crate::text::owned("config reloaded"), false);
    }

    fn keys_list_command(&mut self, key: Key)
        ensures
            list_command_key(*old(self), *final(self), key),
    {
        if key_is(key, 's') {
            self.request_transitions();
        } else if key_is(key, 'd') {
            self.request_agents();
        } else if key_is(key, 'w') {
            self.open_worktree();
        } else if key_is(key, 'o') {
            self.open_in_browser();
        } else if key_is(key, 'z') {
            self.zoom_toggle();
        } else if key_is(key, '?') {
            self.view = Screen::Help;
        }
    }

    pub fn keys_detail(&mut self, key: Key)
        ensures
            detail_key(*old(self), *final(self), key),
    {
        let c = key.code;
        if c == KeyCode::Esc || key_is(key, 'q') {
            self.view = Screen::List;
        } else if c == KeyCode::Tab {
            self.detail.detail_focus_comments = !self.detail.detail_focus_comments;
        } else if key_is(key, 'j') || c == KeyCode::Down {
            self.scroll_focused(false, 1);
        } else if key_is(key, 'k') || c == KeyCode::Up {
            self.scroll_focused(true, 1);
        } else if c == KeyCode::PageDown {
            self.scroll_focused(false, 15);
        } else if c == KeyCode::PageUp {
            self.scroll_focused(true, 15);
        } else if key_is(key, 'g') {
            self.set_focused_scroll(0);
        } else if key_is(key, 's') {
            self.request_transitions();
        } else if key_is(key, 'd') {
            self.request_agents();
        } else if key_is(key, 'w') {
            self.open_worktree();
        } else if key_is(key, 'o') {
            self.open_in_browser();
        } else if key_is(key, 'z') {
            self.zoom_toggle();
        }
    }

    fn move_picker(&mut self, key: Key, len: usize)
        requires
            is_move(key.code),
        ensures
            picker_moves(*old(self), *final(self), key, len as int),
    {
        if key_is(key, 'j') || key.code == KeyCode::Down {
            self.picker_sel = Self::move_sel(len, self.picker_sel, 1);
        } else {
            self.picker_sel = Self::move_sel(len, self.picker_sel, -1);
        }
    }

    pub fn keys_filter_picker(&mut self, key: Key)
        ensures
            filter_picker_key(*old(self), *final(self), key),
    {
        let n = self.cfg.filters.len();
        match Self::picker_number(key, n) {
            Some(idx) => {
                self.view = Screen::List;
                self.load_filter(idx);
                return;
            },
            None => {},
        }
        if key.code == KeyCode::Esc || key_is(key, 'q') {
            self.view = Screen::List;
        } else if key_is(key, 'j') || key.code == KeyCode::Down || key_is(key, 'k') || key.code
            == KeyCode::Up {
            self.move_picker(key, n);
        } else if key.code == KeyCode::Enter {
            self.view = Screen::List;
            let sel = self.picker_sel;
            self.load_filter(sel);
        }
    }

    pub fn keys_transition_picker(&mut self, key: Key)
        ensures
            transition_picker_key(*old(self), *final(self), key),
    {
        let n = self.transition.transitions.len();
        match Self::picker_number(key, n) {
            Some(idx) => {
                let t = copy_transition(&self.transition.transitions[idx]);
                self.view = Screen::List;
                self.apply_transition(&t);
                return;
            },
            None => {},
        }
        if key.code == KeyCode::Esc || key_is(key, 'q') {
            self.view = Screen::List;
        } else if key_is(key, 'j') || key.code == KeyCode::Down || key_is(key, 'k') || key.code
            == KeyCode::Up {
            self.move_picker(key, n);
        } else if key.code == KeyCode::Enter {
            if self.picker_sel < n {
                let t = copy_transition(&self.transition.transitions[self.picker_sel]);
                self.view = Screen::List;
                self.apply_transition(&t);
            }
        }
    }

    pub fn pick_agent_row(&mut self, row: usize)
        ensures
            agent_row_picked(*old(self), *final(self), row as int),
    {
        let offset = self.agent_list_offset();
        if offset > 0 && row == 0 {
            self.open_new_agent_type_picker();
            return;
        }
        let agent_idx = row - offset;
        if agent_idx < self.spawn.agents.len() {
            let agent = copy_agent(&self.spawn.agents[agent_idx]);
            self.view = Screen::List;
            self.delegate_to(agent);
        }
    }

    pub fn keys_agent_picker(&mut self, key: Key)
        requires
            old(self).spawn.agents@.len() < usize::MAX,
        ensures
            agent_picker_key(*old(self), *final(self), key),
    {
        let len = self.agent_picker_len();
        match Self::picker_number(key, len) {
            Some(idx) => {
                self.pick_agent_row(idx);
                return;
            },
            None => {},
        }
        if key.code == KeyCode::Esc || key_is(key, 'q') {
            self.view = Screen::List;
        } else if key_is(key, 'n') {
            self.open_new_agent_type_picker();
        } else if key_is(key, 'j') || key.code == KeyCode::Down || key_is(key, 'k') || key.code
            == KeyCode::Up {
            self.move_picker(key, len);
        } else if key.code == KeyCode::Enter {
            let sel = self.picker_sel;
            self.pick_agent_row(sel);
        }
    }

    pub fn keys_new_agent_type(&mut self, key: Key)
        ensures
            type_picker_key(*old(self), *final(self), key),
    {
        let n = self.cfg.delegate.agents.len();
        match Self::picker_number(key, n) {
            Some(idx) => {
                let spawn = copy_spawn(&self.cfg.delegate.agents[idx]);
                self.open_new_agent_workspace_picker(spawn);
                return;
            },
            None => {},
        }
        if key.code == KeyCode::Esc || key_is(key, 'q') {
            self.picker_sel = 0;
            self.view = Screen::AgentPicker;
        } else if key_is(key, 'j') || key.code == KeyCode::Down || key_is(key, 'k') || key.code
            == KeyCode::Up {
            self.move_picker(key, n);
        } else if key.code == KeyCode::Enter {
            if self.picker_sel < n {
                let spawn = copy_spawn(&self.cfg.delegate.agents[self.picker_sel]);
                self.open_new_agent_workspace_picker(spawn);
            }
        }
    }

    pub fn pick_workspace_row(&mut self, row: usize)
        ensures
            workspace_row_picked(*old(self), *final(self), row as int),
    {
        if row < self.spawn.workspaces.len() {
            let ws = copy_workspace(&self.spawn.workspaces[row]);
            self.spawn.pending_workspace = Some(ws);
            self.open_new_agent_cwd_picker();
        }
    }

    pub fn keys_new_agent_workspace(&mut self, key: Key)
        ensures
            workspace_picker_key(*old(self), *final(self), key),
    {
        if self.spawn.workspaces_loading {
            if key.code == KeyCode::Esc || key_is(key, 'q') {
                self.view = Screen::NewAgentTypePicker;
            }
            return;
        }
        let n = self.spawn.workspaces.len();
        match Self::picker_number(key, n) {
            Some(idx) => {
                self.pick_workspace_row(idx);
                return;
            },
            None => {},
        }
        if key.code == KeyCode::Esc || key_is(key, 'q') {
            self.picker_sel = 0;
            self.view = Screen::NewAgentTypePicker;
        } else if key_is(key, 'j') || key.code == KeyCode::Down || key_is(key, 'k') || key.code
            == KeyCode::Up {
            self.move_picker(key, n);
        } else if key.code == KeyCode::Enter {
            let sel = self.picker_sel;
            self.pick_workspace_row(sel);
        }
    }

    pub fn pick_cwd_row(&mut self, row: usize)
        ensures
            cwd_row_picked(*old(self), *final(self), row as int),
    {
        if row >= self.spawn.cwd_choices.len() {
            self.open_cwd_input();
            return;
        }
        let cwd = self.spawn.cwd_choices[row].clone();
        self.view = Screen::List;
        self.start_new_and_delegate(cwd);
    }

    fn workspace_index(&self, id: &String) -> (r: usize)
        ensures
            r == workspace_pos(self.spawn.workspaces@, id@),
    {
        let want = chars_of(id.as_str());
        let ws = &self.spawn.workspaces;
        let mut i: usize = 0;
        assert(ws@.skip(0) =~= ws@);
        while i < ws.len()
            invariant
                i <= ws.len(),
                want@ == id@,
                ws@ == self.spawn.workspaces@,
                workspace_pos(ws@, id@) == i + workspace_pos(ws@.skip(i as int), id@),
            decreases ws.len() - i,
        {
            assert(ws@.skip(i as int)[0] == ws@[i as int]);
            if crate::branch::vec_equal(&chars_of(ws[i].id.as_str()), &want) {
                return i;
            }
            assert(ws@.skip(i as int).drop_first() =~= ws@.skip(i + 1));
            i += 1;
        }
        i
    }

    pub fn keys_new_agent_cwd(&mut self, key: Key)
        requires
            old(self).spawn.cwd_choices@.len() < usize::MAX,
        ensures
            cwd_picker_key(*old(self), *final(self), key),
    {
        let n = self.spawn.cwd_choices.len() + 1;
        match Self::picker_number(key, n) {
            Some(idx) => {
                self.pick_cwd_row(idx);
                return;
            },
            None => {},
        }
        if key.code == KeyCode::Esc || key_is(key, 'q') {
            let back = match &self.spawn.pending_workspace {
                Some(pw) => {
                    let k = self.workspace_index(&pw.id);
                    if k < self.spawn.workspaces.len() {
                        k
                    } else {
                        0
                    }
                },
                None => 0,
            };
            self.picker_sel = back;
            self.view = Screen::NewAgentWorkspacePicker;
        } else if key_is(key, 'j') || key.code == KeyCode::Down || key_is(key, 'k') || key.code
            == KeyCode::Up {
            self.move_picker(key, n);
        } else if key_is(key, '/') || key_is(key, 'e') {
            self.open_cwd_input();
        } else if key.code == KeyCode::Enter {
            let sel = self.picker_sel;
            self.pick_cwd_row(sel);
        }
    }

    pub fn keys_cwd_input(&mut self, key: Key)
        ensures
            cwd_input_key(*old(self), *final(self), key),
    {
        match key.code {
            KeyCode::Esc => {
                self.view = Screen::NewAgentCwdPicker;
            },
            KeyCode::Enter => {
                let cwd = string_of(&trim_vec(&chars_of(self.spawn.cwd_input.as_str())));
                if chars_of(cwd.as_str()).len() == 0 {
                    self.toast(crate::text::owned("cwd is empty"), true);
                    return;
                }
                let ghost g = cwd;
                let ghost before = *self;
                self.view = Screen::List;
                self.start_new_and_delegate(cwd);
                assert(new_agent_started(App { view: Screen::List, ..before }, *self, g));
            },
            KeyCode::Backspace | KeyCode::Char(_) => {
                edit_text(&mut self.spawn.cwd_input, key, true);
            },
            _ => {},
        }
    }

    pub fn pick_worktree_project_row(&mut self, row: usize)
        ensures
            project_row_picked(*old(self), *final(self), row as int),
    {
        if row >= self.wt.wt_projects.len() {
            self.open_worktree_repo_input();
            return;
        }
        let root = self.wt.wt_projects[row].root.clone();
        let name = self.wt.wt_projects[row].name.clone();
        let resolved = resolve_cwd(root.as_str(), &self.env.home);
        let ghost rv = result_view(resolved);
        self.use_repo(resolved, "repo: ", Some(name));
        assert(resolves(root@, home_of(*old(self)), rv));
    }

    pub fn keys_worktree_project(&mut self, key: Key)
        requires
            old(self).wt.wt_projects@.len() < usize::MAX,
        ensures
            project_picker_key(*old(self), *final(self), key),
    {
        let n = self.wt.wt_projects.len() + 1;
        match Self::picker_number(key, n) {
            Some(idx) => {
                self.pick_worktree_project_row(idx);
                return;
            },
            None => {},
        }
        if key.code == KeyCode::Esc || key_is(key, 'q') {
            self.view = Screen::List;
        } else if key_is(key, 'j') || key.code == KeyCode::Down || key_is(key, 'k') || key.code
            == KeyCode::Up {
            self.move_picker(key, n);
        } else if key_is(key, '/') || key_is(key, 'e') {
            self.open_worktree_repo_input();
        } else if key.code == KeyCode::Enter {
            let sel = self.picker_sel;
            self.pick_worktree_project_row(sel);
        }
    }

    pub fn keys_worktree_repo_input(&mut self, key: Key)
        ensures
            repo_input_key(*old(self), *final(self), key),
    {
        match key.code {
            KeyCode::Esc => {
                self.picker_sel = self.wt.wt_projects.len();
                self.view = Screen::WorktreeProjectPicker;
            },
            KeyCode::Enter => {
                let resolved = resolve_cwd(self.spawn.cwd_input.as_str(), &self.env.home);
                let ghost rv = result_view(resolved);
                self.use_repo(resolved, "repo: ", None);
                assert(resolves(old(self).spawn.cwd_input@, home_of(*old(self)), rv));
            },
            KeyCode::Backspace | KeyCode::Char(_) => {
                edit_text(&mut self.spawn.cwd_input, key, true);
            },
            _ => {},
        }
    }

    pub fn pick_worktree_list_row(&mut self, row: usize)
        ensures
            worktree_row_picked(*old(self), *final(self), row as int),
    {
        if row == 0 {
            self.wt.wt_existing = false;
            self.open_worktree_name_input();
            return;
        }
        let idx = row - 1;
        if idx >= self.wt.wt_worktrees.len() {
            return;
        }
        self.wt.wt_branch = self.wt.wt_worktrees[idx].branch.clone();
        self.wt.wt_existing = true;
        self.picker_sel = 0;
        self.view = Screen::WorktreeAgentPicker;
    }

    pub fn keys_worktree_list(&mut self, key: Key)
        requires
            old(self).wt.wt_worktrees@.len() < usize::MAX,
        ensures
            worktree_list_key(*old(self), *final(self), key),
    {
        let n = self.wt.wt_worktrees.len() + 1;
        match Self::picker_number(key, n) {
            Some(idx) => {
                self.pick_worktree_list_row(idx);
                return;
            },
            None => {},
        }
        if key.code == KeyCode::Esc || key_is(key, 'q') {
            if self.wt.wt_project_asked {
                self.return_to_project_picker();
            } else {
                self.view = Screen::List;
            }
        } else if key_is(key, 'j') || key.code == KeyCode::Down || key_is(key, 'k') || key.code
            == KeyCode::Up {
            self.move_picker(key, n);
        } else if key.code == KeyCode::Enter {
            let sel = self.picker_sel;
            self.pick_worktree_list_row(sel);
        }
    }

    pub fn keys_worktree_name(&mut self, key: Key)
        ensures
            name_key(*old(self), *final(self), key),
    {
        match key.code {
            KeyCode::Esc => {
                self.return_to_worktree_list(None);
            },
            KeyCode::Enter => {
                let branch = crate::branch::sanitize_branch_name(self.wt.wt_name_input.as_str());
                if chars_of(branch.as_str()).len() == 0 {
                    self.toast(
                        crate::text::owned("worktree name is not a valid git branch name"),
                        true,
                    );
                    return;
                }
                self.wt.wt_branch = branch;
                self.picker_sel = 0;
                self.view = Screen::WorktreeAgentPicker;
            },
            KeyCode::Backspace | KeyCode::Char(_) => {
                edit_text(&mut self.wt.wt_name_input, key, true);
            },
            _ => {},
        }
    }

    pub fn pick_worktree_agent_row(&mut self, row: usize)
        ensures
            worktree_agent_row_picked(*old(self), *final(self), row as int),
    {
        let spawn = if row == 0 {
            None
        } else if row - 1 < self.cfg.delegate.agents.len() {
            Some(copy_spawn(&self.cfg.delegate.agents[row - 1]))
        } else {
            return;
        };
        let opts = match self.selected_issue() {
            Some(issue) => worktree_opts(&self.cfg, issue, self.wt.wt_branch.as_str(), &self.env.home),
            None => {
                return;
            },
        };
        let ghost o = opts;
        self.view = Screen::List;
        let ghost mid = *self;
        match spawn {
            None => self.open_worktree_only(opts),
            Some(spawn) => self.start_worktree_agent(spawn, opts),
        }
        assert(worktree_opts_used(mid, *self, o, row as int));
    }

    pub fn keys_worktree_agent(&mut self, key: Key)
        requires
            old(self).cfg.delegate.agents@.len() < usize::MAX,
        ensures
            worktree_agent_key(*old(self), *final(self), key),
    {
        let n = self.cfg.delegate.agents.len() + 1;
        match Self::picker_number(key, n) {
            Some(idx) => {
                self.pick_worktree_agent_row(idx);
                return;
            },
            None => {},
        }
        if key.code == KeyCode::Esc || key_is(key, 'q') {
            if self.wt.wt_existing {
                let branch = self.wt.wt_branch.clone();
                self.return_to_worktree_list(Some(branch.as_str()));
            } else {
                self.view = Screen::WorktreeNameInput;
            }
        } else if key_is(key, 'j') || key.code == KeyCode::Down || key_is(key, 'k') || key.code
            == KeyCode::Up {
            self.move_picker(key, n);
        } else if key.code == KeyCode::Enter {
            let sel = self.picker_sel;
            self.pick_worktree_agent_row(sel);
        }
    }

    pub fn keys_search(&mut self, key: Key)
        ensures
            search_key(*old(self), *final(self), key),
    {
        match key.code {
            KeyCode::Esc => {
                self.view = Screen::List;
            },
            KeyCode::Enter => {
                let q = string_of(&trim_vec(&chars_of(self.list.search_input.as_str())));
                self.view = Screen::List;
                if chars_of(q.as_str()).len() > 0 {
                    let ghost g = q;
                    let ghost before = *self;
                    self.run_search(q);
                    assert(search_run(before, *self, g));
                }
            },
            KeyCode::Backspace | KeyCode::Char(_) => {
                edit_text(&mut self.list.search_input, key, false);
            },
            _ => {},
        }
    }

    pub fn keys_jql(&mut self, key: Key)
        ensures
            jql_key(*old(self), *final(self), key),
    {
        match key.code {
            KeyCode::Esc => {
                self.view = Screen::List;
            },
            KeyCode::Enter => {
                let jql = string_of(&trim_vec(&chars_of(self.list.jql_input.as_str())));
                self.view = Screen::List;
                if chars_of(jql.as_str()).len() > 0 {
                    let expanded = self.cfg.expand_jql(jql.as_str());
                    self.spawn_search(expanded, crate::text::owned("custom JQL"));
                }
            },
            KeyCode::Backspace | KeyCode::Char(_) => {
                edit_text(&mut self.list.jql_input, key, true);
            },
            _ => {},
        }
    }

    /// Handle a key press.
    pub fn on_key(&mut self, key: Key)
        requires
            old(self).spawn.agents@.len() < usize::MAX,
            old(self).spawn.cwd_choices@.len() < usize::MAX,
            old(self).wt.wt_projects@.len() < usize::MAX,
            old(self).wt.wt_worktrees@.len() < usize::MAX,
            old(self).cfg.delegate.agents@.len() < usize::MAX,
        ensures
            key_handled(*old(self), *final(self), key),
    {
        if key_is(key, 'c') && key.ctrl {
            self.should_quit = true;
            return;
        }
        if self.fatal.is_some() {
            if key.code == KeyCode::Esc || key_is(key, 'q') {
                self.should_quit = true;
            } else if key_is(key, 'R') || key_is(key, 'r') {
                self.queue(Action::ReloadConfig);
            }
            return;
        }
        match self.view {
            Screen::List => self.keys_list(key),
            Screen::Detail => self.keys_detail(key),
            Screen::FilterPicker => self.keys_filter_picker(key),
            Screen::TransitionPicker => self.keys_transition_picker(key),
            Screen::AgentPicker => self.keys_agent_picker(key),
            Screen::NewAgentTypePicker => self.keys_new_agent_type(key),
            Screen::NewAgentWorkspacePicker => self.keys_new_agent_workspace(key),
            Screen::NewAgentCwdPicker => self.keys_new_agent_cwd(key),
            Screen::NewAgentCwdInput => self.keys_cwd_input(key),
            Screen::WorktreeProjectPicker => self.keys_worktree_project(key),
            Screen::WorktreeRepoInput => self.keys_worktree_repo_input(key),
            Screen::WorktreeListPicker => self.keys_worktree_list(key),
            Screen::WorktreeNameInput => self.keys_worktree_name(key),
            Screen::WorktreeAgentPicker => self.keys_worktree_agent(key),
            Screen::SearchInput => self.keys_search(key),
            Screen::JqlInput => self.keys_jql(key),
            Screen::Help => {
                if key.code == KeyCode::Esc || key_is(key, 'q') || key_is(key, '?') {
                    self.view = Screen::List;
                }
            },
        }
    }
}


/// Esc walks the `w` flow back one step: the agent picker returns to the
/// name input of a new worktree or to the list of an existing one's repo,
/// the name input to the worktree list, the worktree list to the project
/// picker when one was shown (else to the issue list), the typed repo path
/// to the project picker, and the project picker to the issue list. Nothing
/// but the screen and the picker selection changes on the way.
pub proof fn lemma_esc_walks_back(old: App, new: App)
    requires
        old.fatal is None,
        key_handled(old, new, Key { code: KeyCode::Esc, ctrl: false }),
    ensures
        old.view is WorktreeAgentPicker ==> new.view == if old.wt.wt_existing {
            Screen::WorktreeListPicker
        } else {
            Screen::WorktreeNameInput
        },
        old.view is WorktreeNameInput ==> new.view == Screen::WorktreeListPicker,
        old.view is WorktreeListPicker ==> new.view == if old.wt.wt_project_asked {
            Screen::WorktreeProjectPicker
        } else {
            Screen::List
        },
        old.view is WorktreeRepoInput ==> new.view == Screen::WorktreeProjectPicker,
        old.view is WorktreeProjectPicker ==> new.view == Screen::List,
        old.view is WorktreeAgentPicker || old.view is WorktreeNameInput || old.view is WorktreeListPicker
            || old.view is WorktreeRepoInput || old.view is WorktreeProjectPicker ==> new == (App {
            view: new.view,
            picker_sel: new.picker_sel,
            ..old
        }),
{
}

/// Comments are kept per issue: opening the details of an issue whose
/// comments are already there asks Jira for nothing and keeps them.
pub proof fn lemma_cached_comments_are_kept(old: App, new: App)
    requires
        old.fatal is None,
        old.view is List,
        key_handled(old, new, Key { code: KeyCode::Enter, ctrl: false }),
        old.selection() is Some,
        old.detail.comments.lookup(old.selection()->0.key@) is Some,
    ensures
        new.view is Detail,
        new.actions == old.actions,
        new.detail.comments == old.detail.comments,
{
}

/// `r` in the issue list drops the cached comments: opening an issue
/// afterwards asks Jira for its comments again (given a Jira client and no
/// request for them already on its way).
pub proof fn lemma_refresh_refetches_comments(old: App, mid: App, new: App)
    requires
        old.fatal is None,
        old.view is List,
        key_handled(old, mid, Key { code: KeyCode::Char('r'), ctrl: false }),
        key_handled(mid, new, Key { code: KeyCode::Enter, ctrl: false }),
        mid.selection() is Some,
        mid.has_client,
        !mid.detail.comments_loading.has(mid.selection()->0.key@),
    ensures
        new.view is Detail,
        queued(mid, new),
        last_action(new) matches Action::FetchComments { key } && key@ == mid.selection()->0.key@,
{
}

} // verus!

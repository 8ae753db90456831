use herdr_jira_worktree::config::{
    default_auth, default_max_results, Config, DelegateConfig, Filter, JiraConfig, SearchConfig,
    SpawnAgent, WorktreeConfig,
};
use herdr_jira_worktree::herdr::{HerdrAgent, RepoProject, RepoWorktree};
use herdr_jira_worktree::issue::{Comment, Issue};
use herdr_jira_worktree::pane::paths::resolve_cwd;
use herdr_jira_worktree::pane::{Action, App, AppEnv, ConfigLoad, Key, KeyCode, Resp, Screen};

fn test_issue() -> Issue {
    issue("PROJ-7", "Bug")
}

fn issue(key: &str, issue_type: &str) -> Issue {
    Issue {
        key: key.into(),
        summary: "Fix login".into(),
        status: "To Do".into(),
        status_category: "new".into(),
        issue_type: issue_type.into(),
        priority: "High".into(),
        assignee: "Vitalii".into(),
        reporter: "Someone".into(),
        updated: "2026-07-14 10:00".into(),
        labels: vec!["auth".into(), "urgent".into()],
        description: "Steps to reproduce…".into(),
        url: format!("https://x.atlassian.net/browse/{key}"),
    }
}

fn test_cfg() -> Config {
    let mut cfg = Config {
        jira: JiraConfig {
            base_url: "https://x.atlassian.net".into(),
            auth: default_auth(),
            email: String::new(),
            api_token: String::new(),
            api_token_cmd: String::new(),
            default_project: String::new(),
            max_results: default_max_results(),
        },
        filters: vec![],
        search: SearchConfig::default(),
        delegate: DelegateConfig::default(),
        worktree: WorktreeConfig::default(),
    }
    .normalized();
    cfg.delegate.prompt = "{key}".into();
    cfg.delegate.max_description_chars = 0;
    cfg
}

fn env() -> AppEnv {
    AppEnv { home: None, workspace_id: String::new(), current_dir: None }
}

/// App on the issue list with `test_issue` selected.
fn list_app() -> App {
    let mut app = App::unloaded(env());
    app.cfg = test_cfg();
    app.cfg.delegate.agents = vec![SpawnAgent { name: "codex".into(), command: vec!["codex".into()] }];
    app.list.issues = vec![test_issue()];
    app
}

fn press(app: &mut App, code: KeyCode) {
    app.on_key(Key { code, ctrl: false });
}

fn temp_dir() -> String {
    "/tmp".to_string()
}

fn resolved(raw: &str) -> String {
    resolve_cwd(raw, &None).unwrap()
}

fn project(name: &str, current: bool) -> RepoProject {
    RepoProject {
        name: name.into(),
        root: temp_dir(),
        repo_key: format!("/x/{name}/.git"),
        open_worktrees: 0,
        current,
    }
}

fn worktree(branch: &str) -> RepoWorktree {
    RepoWorktree { branch: branch.into(), path: format!("/x/{branch}"), open: false, is_main: false }
}

fn toast_is_error(app: &App) -> bool {
    matches!(&app.toast, Some((_, true)))
}

#[test]
fn worktree_with_configured_repo_lists_its_worktrees() {
    let mut app = list_app();
    app.cfg.worktree.repos.push(("PROJ".into(), temp_dir()));
    press(&mut app, KeyCode::Char('w'));
    assert_eq!(app.view, Screen::WorktreeListPicker);
    assert_eq!(app.wt.wt_repo, resolved(&temp_dir()));
    assert!(!app.wt.wt_project_asked);
    // Row 0 = "+ new worktree", prefilled from `[worktree].branch`.
    press(&mut app, KeyCode::Enter);
    assert_eq!(app.view, Screen::WorktreeNameInput);
    assert_eq!(app.wt.wt_name_input, "PROJ-7");
}

#[test]
fn worktree_without_repo_asks_for_a_herdr_project() {
    let mut app = list_app();
    press(&mut app, KeyCode::Char('w'));
    assert_eq!(app.view, Screen::WorktreeProjectPicker);
    assert!(app.wt.wt_project_asked);
    app.on_resp(Resp::Projects(Ok(vec![project("jira", true), project("web", false)])));
    assert_eq!(app.wt.wt_projects.len(), 2);
    assert_eq!(app.picker_sel, 0);

    press(&mut app, KeyCode::Char('2'));
    assert_eq!(app.view, Screen::WorktreeListPicker);
    assert_eq!(app.wt.wt_repo_name, "web");
    assert_eq!(app.wt.wt_repo, resolved(&temp_dir()));
}

#[test]
fn existing_worktree_of_the_issue_branch_is_preselected_and_reopened() {
    let mut app = list_app();
    press(&mut app, KeyCode::Char('w'));
    app.on_resp(Resp::Projects(Ok(vec![project("jira", true)])));
    press(&mut app, KeyCode::Enter);
    let repo = app.wt.wt_repo.clone();
    app.on_resp(Resp::RepoWorktrees { repo, result: Ok(vec![worktree("main"), worktree("PROJ-7")]) });
    assert_eq!(app.picker_sel, 2);
    press(&mut app, KeyCode::Enter);
    assert_eq!(app.view, Screen::WorktreeAgentPicker);
    assert_eq!(app.wt.wt_branch, "PROJ-7");

    // Esc: agent picker -> worktree list (same row) -> project picker -> List.
    press(&mut app, KeyCode::Esc);
    assert_eq!(app.view, Screen::WorktreeListPicker);
    assert_eq!(app.picker_sel, 2);
    press(&mut app, KeyCode::Esc);
    assert_eq!(app.view, Screen::WorktreeProjectPicker);
    assert_eq!(app.picker_sel, 0);
    press(&mut app, KeyCode::Esc);
    assert_eq!(app.view, Screen::List);
}

#[test]
fn stale_or_failed_herdr_answers_keep_the_flow_usable() {
    let mut app = list_app();
    app.cfg.worktree.repo = temp_dir();
    press(&mut app, KeyCode::Char('w'));
    // Another repo's answer is ignored.
    app.on_resp(Resp::RepoWorktrees { repo: "/elsewhere".into(), result: Ok(vec![worktree("x")]) });
    assert!(app.wt.wt_worktrees.is_empty());
    assert!(app.wt.wt_worktrees_loading);
    // A failed listing still offers "+ new worktree".
    let repo = app.wt.wt_repo.clone();
    app.on_resp(Resp::RepoWorktrees { repo, result: Err("boom".into()) });
    assert!(toast_is_error(&app));
    press(&mut app, KeyCode::Enter);
    assert_eq!(app.view, Screen::WorktreeNameInput);

    // Projects arriving after `w` was left are dropped.
    let mut app = list_app();
    press(&mut app, KeyCode::Char('w'));
    press(&mut app, KeyCode::Esc);
    app.on_resp(Resp::Projects(Ok(vec![project("jira", true)])));
    assert!(app.wt.wt_projects.is_empty());
    assert_eq!(app.view, Screen::List);
}

#[test]
fn worktree_name_must_sanitize_to_a_branch() {
    let mut app = list_app();
    app.cfg.worktree.repo = temp_dir();
    press(&mut app, KeyCode::Char('w'));
    press(&mut app, KeyCode::Enter);
    app.wt.wt_name_input = "@".into();
    press(&mut app, KeyCode::Enter);
    assert_eq!(app.view, Screen::WorktreeNameInput);
    assert!(toast_is_error(&app));

    app.wt.wt_name_input = "feature/x y".into();
    press(&mut app, KeyCode::Enter);
    assert_eq!(app.view, Screen::WorktreeAgentPicker);
    assert_eq!(app.wt.wt_branch, "feature/x-y");
}

#[test]
fn worktree_esc_walks_back_one_step() {
    // Repo from config: agent picker -> name input (edit kept) -> list -> List.
    let mut app = list_app();
    app.cfg.worktree.repos.push(("PROJ".into(), temp_dir()));
    press(&mut app, KeyCode::Char('w'));
    press(&mut app, KeyCode::Enter);
    app.wt.wt_name_input = "feature/x y".into();
    press(&mut app, KeyCode::Enter);
    assert_eq!(app.view, Screen::WorktreeAgentPicker);
    press(&mut app, KeyCode::Esc);
    assert_eq!(app.view, Screen::WorktreeNameInput);
    assert_eq!(app.wt.wt_name_input, "feature/x y");
    press(&mut app, KeyCode::Esc);
    assert_eq!(app.view, Screen::WorktreeListPicker);
    assert_eq!(app.picker_sel, 0);
    press(&mut app, KeyCode::Esc);
    assert_eq!(app.view, Screen::List);

    // Typed path: name input -> list -> project picker ("type path…") -> path input.
    let mut app = list_app();
    press(&mut app, KeyCode::Char('w'));
    press(&mut app, KeyCode::Char('/'));
    assert_eq!(app.view, Screen::WorktreeRepoInput);
    app.spawn.cwd_input = temp_dir();
    press(&mut app, KeyCode::Enter);
    assert_eq!(app.view, Screen::WorktreeListPicker);
    press(&mut app, KeyCode::Enter);
    assert_eq!(app.view, Screen::WorktreeNameInput);
    press(&mut app, KeyCode::Esc);
    assert_eq!(app.view, Screen::WorktreeListPicker);
    press(&mut app, KeyCode::Esc);
    assert_eq!(app.view, Screen::WorktreeProjectPicker);
    assert_eq!(app.picker_sel, app.wt.wt_projects.len());
    press(&mut app, KeyCode::Enter);
    assert_eq!(app.view, Screen::WorktreeRepoInput);
}

#[test]
fn a_missing_repo_directory_is_reported() {
    let mut app = list_app();
    app.cfg.worktree.repo = "/definitely/not/a/dir/of/this/machine".into();
    press(&mut app, KeyCode::Char('w'));
    assert_eq!(app.view, Screen::List);
    assert_eq!(
        app.toast,
        Some(("worktree repo: not a directory: /definitely/not/a/dir/of/this/machine".to_string(), true))
    );
}

#[test]
fn worktree_without_agent_queues_the_open() {
    let mut app = list_app();
    app.cfg.worktree.repo = temp_dir();
    press(&mut app, KeyCode::Char('w'));
    press(&mut app, KeyCode::Enter);
    press(&mut app, KeyCode::Enter);
    assert_eq!(app.view, Screen::WorktreeAgentPicker);
    app.actions.clear();
    press(&mut app, KeyCode::Char('1'));
    assert_eq!(app.view, Screen::List);
    match app.actions.last() {
        Some(Action::OpenWorktree { branch, repo, opts, focus }) => {
            assert_eq!(branch, "PROJ-7");
            assert_eq!(repo, &resolved(&temp_dir()));
            assert_eq!(opts.label, "PROJ-7");
            assert!(*focus);
        }
        _ => panic!("no worktree opened"),
    }
    assert_eq!(app.toast, Some(("creating worktree PROJ-7…".to_string(), false)));
}

#[test]
fn new_search_results_keep_the_selection_on_a_row() {
    let mut app = list_app();
    app.list.issues = vec![issue("A-1", "Bug"), issue("A-2", "Bug"), issue("A-3", "Bug")];
    app.list.selected = 2;
    app.on_resp(Resp::Issues { title: "mine".into(), result: Ok(vec![issue("B-1", "Bug")]) });
    assert_eq!(app.list.selected, 0);
    assert_eq!(app.list.current_title, "mine");
    assert_eq!(app.visible().len(), 1);
    app.on_resp(Resp::Issues { title: "empty".into(), result: Ok(vec![]) });
    assert_eq!(app.list.selected, 0);
    assert!(app.selected_issue().is_none());
    app.on_resp(Resp::Issues { title: "x".into(), result: Err("down".into()) });
    assert_eq!(app.toast, Some(("Jira: down".to_string(), true)));
}

#[test]
fn epics_expand_and_collapse_in_place() {
    let mut app = list_app();
    app.has_client = true;
    app.list.issues = vec![issue("E-1", "Epic"), issue("T-9", "Task")];
    press(&mut app, KeyCode::Char('l'));
    match app.actions.last() {
        Some(Action::SearchChildren { epic, jql, fallback }) => {
            assert_eq!(epic, "E-1");
            assert_eq!(jql, "parent = E-1 ORDER BY created ASC");
            assert_eq!(fallback, "\"Epic Link\" = E-1 ORDER BY created ASC");
        }
        _ => panic!("children not requested"),
    }
    assert_eq!(app.toast, Some(("loading issues in E-1…".to_string(), false)));
    app.on_resp(Resp::Children { epic: "E-1".into(), result: Ok(vec![issue("C-1", "Task"), issue("C-2", "Task")]) });
    assert_eq!(app.visible().len(), 4);
    press(&mut app, KeyCode::Char('j'));
    press(&mut app, KeyCode::Char('j'));
    assert_eq!(app.selected_issue().map(|i| i.key.clone()), Some("C-2".to_string()));
    // On a child row, `h` collapses the parent epic and selects it.
    press(&mut app, KeyCode::Char('h'));
    assert_eq!(app.visible().len(), 2);
    assert_eq!(app.list.selected, 0);
    // Reopening needs no new fetch.
    let queued = app.actions.len();
    press(&mut app, KeyCode::Char('l'));
    assert_eq!(app.actions.len(), queued);
    assert_eq!(app.visible().len(), 4);
}

#[test]
fn selection_moves_within_the_list() {
    let mut app = list_app();
    app.list.issues = vec![issue("A-1", "Bug"), issue("A-2", "Bug"), issue("A-3", "Bug")];
    press(&mut app, KeyCode::Up);
    assert_eq!(app.list.selected, 0);
    press(&mut app, KeyCode::PageDown);
    assert_eq!(app.list.selected, 2);
    press(&mut app, KeyCode::Char('k'));
    assert_eq!(app.list.selected, 1);
    press(&mut app, KeyCode::Char('G'));
    assert_eq!(app.list.selected, 2);
    press(&mut app, KeyCode::Home);
    assert_eq!(app.list.selected, 0);
    assert_eq!(App::move_sel(0, 5, 1), 0);
    assert_eq!(App::move_sel(3, 1, -15), 0);
}

#[test]
fn filters_load_with_project_expansion() {
    let mut app = list_app();
    app.has_client = true;
    app.cfg.jira.default_project = "ABC".into();
    app.cfg.filters = vec![
        Filter { name: "mine".into(), jql: "assignee = me".into() },
        Filter { name: "proj".into(), jql: "project = {project}".into() },
    ];
    press(&mut app, KeyCode::Char('2'));
    assert_eq!(app.list.filter_idx, 1);
    assert_eq!(app.list.last_jql, "project = ABC");
    assert!(app.list.loading);
    match app.actions.last() {
        Some(Action::Search { jql, title }) => {
            assert_eq!(jql, "project = ABC");
            assert_eq!(title, "proj");
        }
        _ => panic!("no search"),
    }
    // Past the last filter nothing happens.
    let n = app.actions.len();
    press(&mut app, KeyCode::Char('5'));
    assert_eq!(app.actions.len(), n);
}

#[test]
fn search_escapes_quotes() {
    let mut app = list_app();
    app.has_client = true;
    press(&mut app, KeyCode::Char('/'));
    for c in " say \"hi\" ".chars() {
        press(&mut app, KeyCode::Char(c));
    }
    press(&mut app, KeyCode::Enter);
    assert_eq!(app.view, Screen::List);
    assert_eq!(app.list.last_jql, "text ~ \"say \\\"hi\\\"\" ORDER BY updated DESC");
    match app.actions.last() {
        Some(Action::Search { title, .. }) => assert_eq!(title, "search: say \"hi\""),
        _ => panic!("no search"),
    }
}

#[test]
fn text_inputs_edit_with_backspace_and_ctrl_u() {
    let mut app = list_app();
    press(&mut app, KeyCode::Char('J'));
    assert_eq!(app.view, Screen::JqlInput);
    for c in "ab".chars() {
        press(&mut app, KeyCode::Char(c));
    }
    press(&mut app, KeyCode::Backspace);
    assert_eq!(app.list.jql_input, "a");
    app.on_key(Key { code: KeyCode::Char('u'), ctrl: true });
    assert_eq!(app.list.jql_input, "");
    press(&mut app, KeyCode::Esc);
    assert_eq!(app.view, Screen::List);
}

#[test]
fn delegating_to_a_running_agent_queues_the_prompt() {
    let mut app = list_app();
    press(&mut app, KeyCode::Char('d'));
    assert_eq!(app.view, Screen::AgentPicker);
    let agent = HerdrAgent {
        target: "w2:p3".into(),
        label: "codex".into(),
        status: "idle".into(),
        cwd: "/tmp".into(),
        pane_id: "w2:p3".into(),
    };
    app.on_resp(Resp::Agents(Ok(vec![agent])));
    // Row 0 is "start new"; row 1 the running agent.
    press(&mut app, KeyCode::Char('2'));
    assert_eq!(app.view, Screen::List);
    match app.actions.last() {
        Some(Action::SendToAgent { key, agent, text, submit, .. }) => {
            assert_eq!(key, "PROJ-7");
            assert_eq!(agent.pane_id, "w2:p3");
            assert_eq!(text, "PROJ-7");
            assert!(*submit);
        }
        _ => panic!("nothing sent"),
    }
    assert_eq!(app.toast, Some(("sending PROJ-7 to codex…".to_string(), false)));
    app.on_resp(Resp::Delegated { key: "PROJ-7".into(), label: "codex".into(), submitted: true, result: Ok(()) });
    assert_eq!(app.toast, Some(("PROJ-7 delegated to codex".to_string(), false)));
    match app.actions.last() {
        Some(Action::Notify { message }) => assert_eq!(message, "Jira PROJ-7 delegated to codex"),
        _ => panic!("no notification"),
    }
}

#[test]
fn no_agents_at_all_returns_to_the_list() {
    let mut app = list_app();
    app.cfg.delegate.agents.clear();
    press(&mut app, KeyCode::Char('d'));
    app.on_resp(Resp::Agents(Ok(vec![])));
    assert_eq!(app.view, Screen::List);
    assert!(toast_is_error(&app));
}

#[test]
fn comments_are_fetched_once_per_issue() {
    let mut app = list_app();
    app.has_client = true;
    press(&mut app, KeyCode::Enter);
    assert_eq!(app.view, Screen::Detail);
    assert!(matches!(app.actions.last(), Some(Action::FetchComments { key }) if key == "PROJ-7"));
    let n = app.actions.len();
    press(&mut app, KeyCode::Esc);
    press(&mut app, KeyCode::Enter);
    assert_eq!(app.actions.len(), n);
    app.on_resp(Resp::Comments {
        key: "PROJ-7".into(),
        result: Ok(vec![Comment { author: "a".into(), created: "today".into(), body: "hi".into() }]),
    });
    assert!(app.detail.comments.contains_key("PROJ-7"));
    assert!(!app.detail.comments_loading.contains("PROJ-7"));
    // Tab moves the scroll focus to the comments pane.
    press(&mut app, KeyCode::Tab);
    press(&mut app, KeyCode::Char('j'));
    assert_eq!(app.detail.comment_scroll, 1);
    assert_eq!(app.detail.detail_scroll, 0);
    press(&mut app, KeyCode::Char('k'));
    press(&mut app, KeyCode::Char('k'));
    assert_eq!(app.detail.comment_scroll, 0);
}

#[test]
fn refresh_drops_cached_comments() {
    let mut app = list_app();
    app.has_client = true;
    press(&mut app, KeyCode::Enter);
    app.on_resp(Resp::Comments {
        key: "PROJ-7".into(),
        result: Ok(vec![Comment { author: "a".into(), created: "today".into(), body: "hi".into() }]),
    });
    press(&mut app, KeyCode::Esc);
    let n = app.actions.len();
    press(&mut app, KeyCode::Enter);
    assert_eq!(app.actions.len(), n);
    assert!(app.detail.comments.contains_key("PROJ-7"));
    press(&mut app, KeyCode::Esc);
    press(&mut app, KeyCode::Char('r'));
    assert!(!app.detail.comments.contains_key("PROJ-7"));
    press(&mut app, KeyCode::Enter);
    assert_eq!(app.view, Screen::Detail);
    assert!(matches!(app.actions.last(), Some(Action::FetchComments { key }) if key == "PROJ-7"));
}

#[test]
fn config_load_errors_are_shown_full_screen() {
    let mut app = App::new(env(), ConfigLoad::Failed("cannot read config".into()));
    assert_eq!(app.fatal.as_deref(), Some("cannot read config"));
    press(&mut app, KeyCode::Char('r'));
    assert!(matches!(app.actions.last(), Some(Action::ReloadConfig)));
    let mut cfg = test_cfg();
    cfg.filters = vec![Filter { name: "mine".into(), jql: "assignee = me".into() }];
    app.reload_config(ConfigLoad::Ready(cfg));
    assert!(app.fatal.is_none());
    assert!(app.has_client);
    assert!(matches!(app.actions.last(), Some(Action::Search { title, .. }) if title == "mine"));
    press(&mut app, KeyCode::Char('q'));
    assert!(app.should_quit);
}

#[test]
fn ctrl_c_quits_anywhere() {
    let mut app = list_app();
    press(&mut app, KeyCode::Char('?'));
    assert_eq!(app.view, Screen::Help);
    app.on_key(Key { code: KeyCode::Char('c'), ctrl: true });
    assert!(app.should_quit);
}

#[test]
fn new_agent_wizard_needs_a_directory() {
    let mut app = list_app();
    app.env.workspace_id = "w2".into();
    press(&mut app, KeyCode::Char('d'));
    app.on_resp(Resp::Agents(Ok(vec![])));
    press(&mut app, KeyCode::Enter);
    assert_eq!(app.view, Screen::NewAgentTypePicker);
    press(&mut app, KeyCode::Enter);
    assert_eq!(app.view, Screen::NewAgentWorkspacePicker);
    assert!(matches!(app.actions.last(), Some(Action::ListWorkspaces)));
    let ws = |id: &str, focused: bool| herdr_jira_worktree::herdr::HerdrWorkspace {
        id: id.into(),
        label: format!("space {id}"),
        number: 1,
        focused,
        tab_count: 1,
        pane_count: 1,
        agent_status: String::new(),
        repo: None,
    };
    app.on_resp(Resp::Workspaces(Ok(vec![ws("w1", true), ws("w2", false)])));
    // The workspace hosting this pane is preselected.
    assert_eq!(app.picker_sel, 1);
    press(&mut app, KeyCode::Enter);
    assert_eq!(app.view, Screen::NewAgentCwdPicker);
    press(&mut app, KeyCode::Char('e'));
    assert_eq!(app.view, Screen::NewAgentCwdInput);
    app.spawn.cwd_input = "/definitely/not/a/dir/of/this/machine".into();
    press(&mut app, KeyCode::Enter);
    assert_eq!(
        app.toast,
        Some(("not a directory: /definitely/not/a/dir/of/this/machine".to_string(), true))
    );
    // The attempt ends on the list; come back to the input.
    assert_eq!(app.view, Screen::List);
    app.view = Screen::NewAgentCwdInput;
    app.spawn.cwd_input = temp_dir();
    app.clock_secs = 1_234_567;
    press(&mut app, KeyCode::Enter);
    assert_eq!(app.view, Screen::List);
    match app.actions.last() {
        Some(Action::StartAndDelegate { key, agent_label, opts, .. }) => {
            assert_eq!(key, "PROJ-7");
            assert_eq!(agent_label, "codex");
            assert_eq!(opts.name, "PROJ-7-codex-4567");
            assert_eq!(opts.workspace_id, "w2");
            assert_eq!(opts.tab_label, "PROJ-7");
            assert_eq!(opts.cwd, temp_dir());
        }
        _ => panic!("agent not started"),
    }
}

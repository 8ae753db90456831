use herdr_jira_worktree::branch::{sanitize_branch_name, slugify};
use herdr_jira_worktree::config::{
    default_auth, default_max_results, Config, DelegateConfig, JiraConfig, SearchConfig,
    WorktreeConfig,
};
use herdr_jira_worktree::issue::{build_prompt, is_epic, Issue};
use herdr_jira_worktree::naming::{
    dir_name, expand_path, fill_worktree_template, project_key, render_branch_name, shell_join,
    short_home, truncate_label, unique_agent_name,
};

fn test_issue() -> Issue {
    Issue {
        key: "PROJ-7".into(),
        summary: "Fix login".into(),
        status: "To Do".into(),
        status_category: "new".into(),
        issue_type: "Bug".into(),
        priority: "High".into(),
        assignee: "Vitalii".into(),
        reporter: "Someone".into(),
        updated: "2026-07-14 10:00".into(),
        labels: vec!["auth".into(), "urgent".into()],
        description: "Steps to reproduce…".into(),
        url: "https://x.atlassian.net/browse/PROJ-7".into(),
    }
}

fn test_cfg(prompt: &str, max_desc: usize) -> Config {
    let mut cfg = Config {
        jira: JiraConfig {
            base_url: "https://x.atlassian.net".into(),
            auth: default_auth(),
            email: String::new(),
            api_token: String::new(),
            api_token_cmd: String::new(),
            default_project: String::new(),
            max_results: default_max_results(),
        },
        filters: vec![],
        search: SearchConfig::default(),
        delegate: DelegateConfig::default(),
        worktree: WorktreeConfig::default(),
    }
    .normalized();
    cfg.delegate.prompt = prompt.into();
    cfg.delegate.max_description_chars = max_desc;
    cfg
}

fn branch_for(template: &str, summary: &str) -> String {
    let mut issue = test_issue();
    issue.summary = summary.into();
    render_branch_name(template, &issue)
}

#[test]
fn prompt_placeholders_are_filled() {
    let cfg = test_cfg(
        "{key}: {summary} [{status}/{priority}] {labels}\n{description}\n{url}",
        0,
    );
    let p = build_prompt(&cfg, &test_issue());
    assert_eq!(
        p,
        "PROJ-7: Fix login [To Do/High] auth, urgent\nSteps to reproduce…\nhttps://x.atlassian.net/browse/PROJ-7"
    );
}

#[test]
fn long_descriptions_are_truncated() {
    let cfg = test_cfg("{description}", 10);
    let mut issue = test_issue();
    issue.description = "x".repeat(50);
    let p = build_prompt(&cfg, &issue);
    assert!(p.starts_with("xxxxxxxxxx\n[… description truncated]"));
}

#[test]
fn empty_description_gets_placeholder() {
    let cfg = test_cfg("{description}", 0);
    let mut issue = test_issue();
    issue.description = "  ".into();
    assert_eq!(build_prompt(&cfg, &issue), "(no description)");
}

#[test]
fn branch_default_template_is_the_key() {
    assert_eq!(branch_for("{key}", "Fix login"), "PROJ-7");
    assert_eq!(branch_for("{type}/{key}", "Fix login"), "bug/PROJ-7");
}

#[test]
fn branch_slug_collapses_punctuation() {
    assert_eq!(
        branch_for("{key}-{slug}", "Fix: login  crash (on iOS 17)!"),
        "PROJ-7-fix-login-crash-on-ios-17"
    );
}

#[test]
fn branch_non_ascii_summary_collapses_to_key() {
    assert_eq!(branch_for("{key}-{slug}", "로그인 버그 수정"), "PROJ-7");
}

#[test]
fn branch_hostile_templates_become_valid_refs() {
    assert_eq!(branch_for("-feature/..x @{y}.lock/", ""), "feature");
    assert_eq!(branch_for("{key}~^:?*[\\ name.lock", ""), "PROJ-7-name");
    assert_eq!(branch_for("a.lock/b..c//d.", ""), "a/b.c/d");
    assert_eq!(branch_for("@", ""), "");
    assert_eq!(branch_for("{slug}", "!!!"), "");
}

#[test]
fn branch_long_slug_is_cut_at_a_word_boundary() {
    assert_eq!(
        branch_for(
            "{key}-{slug}",
            "Implement the extremely comprehensive authentication refactoring plan"
        ),
        "PROJ-7-implement-the-extremely-comprehensive"
    );
}

#[test]
fn project_key_is_everything_before_the_last_dash() {
    assert_eq!(project_key("PROJ-1666"), "PROJ");
    assert_eq!(project_key("A-B-12"), "A-B");
}

#[test]
fn project_key_without_dash_is_the_whole_key() {
    assert_eq!(project_key("PROJ"), "PROJ");
}

#[test]
fn sanitizing_twice_changes_nothing() {
    for raw in ["-feature/..x @{y}.lock/", "a.lock/b..c//d.", "feature/x y", "HEAD", "~x^y"] {
        let once = sanitize_branch_name(raw);
        assert_eq!(sanitize_branch_name(&once), once);
        assert!(!once.contains(".."));
        assert!(!once.contains("@{"));
        assert!(!once.starts_with('-') && !once.ends_with('/') && !once.ends_with('.'));
    }
    assert_eq!(sanitize_branch_name("HEAD"), "");
    assert_eq!(sanitize_branch_name("feature/x y"), "feature/x-y");
}

#[test]
fn slugs_are_lowercase_words_within_the_limit() {
    assert_eq!(slugify("Fix: Login  Crash!", 40), "fix-login-crash");
    assert_eq!(slugify("alpha beta gamma", 10), "alpha-beta");
    assert_eq!(slugify("abcdefghijkl", 5), "abcde");
    assert_eq!(slugify("!!!", 40), "");
}

#[test]
fn worktree_templates_fill_the_branch() {
    let issue = test_issue();
    assert_eq!(
        fill_worktree_template("~/wt/{key}-{branch}", &issue, "feature/x"),
        "~/wt/PROJ-7-feature/x"
    );
    assert_eq!(fill_worktree_template("{type}", &issue, "b"), "bug");
}

#[test]
fn epics_are_recognised_in_any_case() {
    let mut issue = test_issue();
    assert!(!is_epic(&issue));
    issue.issue_type = "EPIC".into();
    assert!(is_epic(&issue));
}

#[test]
fn paths_show_their_last_component() {
    assert_eq!(dir_name("/x/backend"), "backend");
    assert_eq!(dir_name("/x/backend/"), "backend");
    assert_eq!(dir_name("/"), "/");
}

#[test]
fn home_is_expanded_and_shortened() {
    let home = Some("/home/u".to_string());
    assert_eq!(expand_path(" ~/src ", &home), "/home/u/src");
    assert_eq!(expand_path("$HOME/w", &home), "/home/u/w");
    assert_eq!(expand_path("~", &home), "/home/u");
    assert_eq!(expand_path("~/src", &None), "~/src");
    assert_eq!(short_home("/home/u/src", "/home/u"), "~/src");
    assert_eq!(short_home("/tmp", "/home/u"), "/tmp");
}

#[test]
fn agent_names_are_cli_friendly() {
    assert_eq!(unique_agent_name("PROJ-7", "codex code", 1_234_567), "PROJ-7-codex-code-4567");
}

#[test]
fn commands_are_shell_quoted() {
    let argv: Vec<String> = vec!["codex".into(), "--model".into(), "model name".into(), "".into(), "it's".into()];
    assert_eq!(shell_join(&argv), "codex --model 'model name' '' 'it'\\''s'");
}

#[test]
fn long_labels_are_cut_with_an_ellipsis() {
    assert_eq!(truncate_label("abcdef", 4), "abc…");
    assert_eq!(truncate_label("abc", 4), "abc");
}

use herdr_jira_worktree::config::{
    config_path, default_auth, default_max_results, token_from_command, CommandOutput, Config,
    DelegateConfig, Filter, JiraConfig, SearchConfig, TokenStep, WorktreeConfig,
};

fn config(project: &str, filters: Vec<Filter>) -> Config {
    Config {
        jira: JiraConfig {
            base_url: "https://example.atlassian.net//".into(),
            auth: default_auth(),
            email: String::new(),
            api_token: String::new(),
            api_token_cmd: String::new(),
            default_project: project.into(),
            max_results: default_max_results(),
        },
        filters,
        search: SearchConfig::default(),
        delegate: DelegateConfig::default(),
        worktree: WorktreeConfig::default(),
    }
}

#[test]
fn missing_worktree_table_uses_defaults() {
    let wt = WorktreeConfig::default();
    assert_eq!(wt.repo, "");
    assert!(wt.repos.is_empty());
    assert_eq!(wt.branch, "{key}");
    assert_eq!(wt.label, "{key}");
    assert_eq!(wt.base, "");
    assert_eq!(wt.path, "");
    assert!(!wt.trust_repository);
    assert!(wt.focus);
    assert!(wt.submit.is_none());
}

#[test]
fn delegate_defaults() {
    let d = DelegateConfig::default();
    assert_eq!(d.placement, "tab");
    assert!(!d.focus_new);
    assert_eq!(d.startup_delay_ms, 1500);
    assert_eq!(d.wait_ready_ms, 30000);
    assert_eq!(d.submit_delay_ms, 500);
    assert_eq!(d.max_description_chars, 6000);
    assert!(d.submit);
    let names: Vec<&str> = d.agents.iter().map(|a| a.name.as_str()).collect();
    assert_eq!(names, vec!["codex", "grok", "cursor", "opencode"]);
    assert_eq!(d.agents[0].command, vec!["codex".to_string()]);
    assert_eq!(SearchConfig::default().jql, "text ~ \"{query}\" ORDER BY updated DESC");
}

#[test]
fn loading_adds_builtin_filters_and_trims_the_url() {
    let cfg = config("ABC", vec![]).normalized();
    assert_eq!(cfg.jira.base_url, "https://example.atlassian.net");
    let names: Vec<&str> = cfg.filters.iter().map(|f| f.name.as_str()).collect();
    assert_eq!(names, vec!["My open issues", "Project ABC"]);
    assert_eq!(cfg.expand_jql(&cfg.filters[1].jql), "project = ABC ORDER BY updated DESC");
    let cfg = config("", vec![]).normalized();
    assert_eq!(cfg.filters.len(), 1);
    let own = vec![Filter { name: "x".into(), jql: "y".into() }];
    let cfg = config("ABC", own).normalized();
    assert_eq!(cfg.filters.len(), 1);
    assert_eq!(cfg.filters[0].name, "x");
}

#[test]
fn token_comes_inline_or_from_the_command() {
    let mut cfg = config("", vec![]);
    cfg.jira.api_token = "  tok  ".into();
    assert!(matches!(cfg.resolve_token(), TokenStep::Ready(Ok(t)) if t == "tok"));
    cfg.jira.api_token = String::new();
    assert!(matches!(cfg.resolve_token(), TokenStep::Ready(Err(e)) if e == "no api_token or api_token_cmd set in [jira] config"));
    cfg.jira.api_token_cmd = " pass jira ".into();
    assert!(matches!(cfg.resolve_token(), TokenStep::RunCommand(c) if c == "pass jira"));
    let ok = CommandOutput { success: true, status: "exit status: 0".into(), stdout: "secret\n".into(), stderr: String::new() };
    assert_eq!(token_from_command(Ok(ok)).unwrap(), "secret");
    let empty = CommandOutput { success: true, status: "exit status: 0".into(), stdout: " \n".into(), stderr: String::new() };
    assert_eq!(token_from_command(Ok(empty)).unwrap_err(), "api_token_cmd produced no output");
    let failed = CommandOutput { success: false, status: "exit status: 1".into(), stdout: String::new(), stderr: " locked \n".into() };
    assert_eq!(token_from_command(Ok(failed)).unwrap_err(), "api_token_cmd exited with exit status: 1: locked");
    assert_eq!(token_from_command(Err("boom".into())).unwrap_err(), "api_token_cmd failed to start: boom");
}

#[test]
fn config_lives_in_the_plugin_dir() {
    assert_eq!(config_path("/p", "/home/u"), "/p/config.toml");
    assert_eq!(
        config_path("", "/home/u"),
        "/home/u/.config/herdr/plugins/config/han.jira-worktree/config.toml"
    );
}

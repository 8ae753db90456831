use herdr_jira_worktree::flows::{
    delivered, list_projects, open_or_create_worktree, send_to_agent, start_agent,
    start_and_delegate, wait_agent_status, Event, Step,
};
use herdr_jira_worktree::herdr::{
    parse_agent, parse_response, projects_from_workspaces, read_output, split_parent, CliOutput,
    HerdrAgent, HerdrWorkspace, StartAgentOpts, WorkspaceRepo, WorktreeOpts,
};
use herdr_jira_worktree::json::{parse_json, Json, JsonKind};

/// One expected herdr command and its scripted answer.
struct Mock {
    args: Vec<String>,
    response: String,
    exit: u8,
    delay_ms: u64,
}

impl Mock {
    fn ok(args: &[&str], response: &str) -> Self {
        Mock {
            args: args.iter().map(|s| s.to_string()).collect(),
            response: response.to_string(),
            exit: 0,
            delay_ms: 0,
        }
    }

    fn error(args: &[&str], code: &str) -> Self {
        Mock {
            exit: 1,
            ..Mock::ok(
                args,
                &format!("{{\"error\":{{\"code\":\"{code}\",\"message\":\"test failure\"}}}}"),
            )
        }
    }
}

fn check_args(expected: &[String], got: &[String], step: usize) {
    assert_eq!(expected.len(), got.len(), "step {step}: wrong argument count: {got:?}");
    for (j, (e, g)) in expected.iter().zip(got).enumerate() {
        // A readiness timeout must be positive and use only the remaining
        // budget, not restart it after agent detection.
        if let Some(max) = e.strip_prefix("TIMEOUT<=") {
            let max: u64 = max.parse().unwrap();
            let v: u64 = g.parse().expect("numeric timeout");
            assert!(v > 0 && v <= max, "step {step}: invalid timeout {v}");
        } else {
            assert_eq!(e, g, "step {step}: wrong argument {j}");
        }
    }
}

/// Drive a machine against the script; the clock starts at `now` (ns) and
/// moves with every sleep and every scripted delay.
fn drive<T>(
    first: Step<T>,
    mut resume: impl FnMut(Event, u64) -> Step<T>,
    script: Vec<Mock>,
    mut now: u64,
) -> Result<T, String> {
    let mut step = first;
    let mut i = 0;
    loop {
        match step {
            Step::Run(args) => {
                assert!(i < script.len(), "unexpected command: {args:?}");
                let m = &script[i];
                check_args(&m.args, &args, i + 1);
                i += 1;
                now += m.delay_ms * 1_000_000;
                let out = CliOutput::Exited {
                    success: m.exit == 0,
                    stdout: format!("{}\n", m.response),
                    stderr: String::new(),
                };
                step = resume(Event::Ran(read_output(&args, out)), now);
            }
            Step::SleepMs(ms) => {
                now += ms * 1_000_000;
                step = resume(Event::Slept, now);
            }
            Step::SleepNs(ns) => {
                now += ns;
                step = resume(Event::Slept, now);
            }
            Step::Done(r) => {
                assert_eq!(i, script.len(), "not every scripted command ran");
                return r;
            }
        }
    }
}

fn json(text: &str) -> Json {
    parse_json(text).unwrap()
}

fn agent() -> HerdrAgent {
    parse_agent(
        &json(r#"{"pane_id": "w2:p3", "terminal_id": "term_invalid_target", "name": "possibly-ambiguous", "agent": "codex", "agent_status": "idle"}"#),
        "",
    )
    .unwrap()
}

fn opts(placement: &str) -> StartAgentOpts {
    StartAgentOpts {
        name: "jira-TEST-1".into(),
        cwd: "/tmp/project with spaces".into(),
        argv: vec!["codex".into(), "--model".into(), "model name".into()],
        placement: placement.into(),
        focus: false,
        workspace_id: "w2".into(),
        tab_label: "TEST-1".into(),
        worktree: None,
    }
}

const OWN_PANE: &str = "w1:jira";

fn tab_start_steps() -> Vec<Mock> {
    vec![
        Mock::ok(
            &["tab", "create", "--workspace", "w2", "--cwd", "/tmp/project with spaces", "--label", "TEST-1", "--no-focus"],
            r#"{"result": {"tab": {"tab_id": "w2:t1"}, "root_pane": {"pane_id": "w2:p3", "terminal_id": "term_invalid_target"}}}"#,
        ),
        Mock::ok(&["pane", "run", "w2:p3", "codex --model 'model name'"], r#"{"result": {}}"#),
        // Detection may not have happened at rename time. Its failure must
        // not make us address an unassigned name when waiting or sending.
        Mock::error(&["agent", "rename", "w2:p3", "jira-TEST-1"], "agent_not_found"),
    ]
}

fn delegate(o: &StartAgentOpts, submit: bool, wait_ready_ms: u64, script: Vec<Mock>) -> Result<HerdrAgent, String> {
    let (mut d, first) = start_and_delegate(o, OWN_PANE, "prompt", submit, 0, 0, wait_ready_ms);
    drive(first, |ev, now| d.resume(ev, now), script, 0)
}

#[test]
fn parsed_agents_use_pane_ids_and_exclude_non_delegable_panes() {
    assert_eq!(agent().target, "w2:p3");
    let a = json(r#"{"pane_id": "w2:p3", "agent": "codex", "agent_status": "idle"}"#);
    assert!(parse_agent(&a, "w2:p3").is_none());
    let a = json(r#"{"pane_id": "w2:p3", "agent": "codex", "agent_status": "unknown"}"#);
    assert!(parse_agent(&a, "").is_none());
    let a = json(r#"{"pane_id": "", "agent": "codex", "agent_status": "idle"}"#);
    assert!(parse_agent(&a, "").is_none());
    assert!(parse_agent(&json(r#"{"pane_id": "w2:p4", "agent_status": "idle"}"#), "").is_none());
}

#[test]
fn response_errors_preserve_api_codes_from_stdout() {
    for success in [false, true] {
        let args: Vec<String> = vec!["agent".into(), "get".into(), "w2:p3".into()];
        let e = parse_response(
            &args,
            success,
            r#"{"error":{"code":"agent_not_found","message":"not detected"}}"#,
            "",
        )
        .unwrap_err();
        assert_eq!(e.code.as_deref(), Some("agent_not_found"));
        assert!(e.message.contains("not detected"));
    }
}

#[test]
fn response_parser_handles_empty_success_and_non_json_errors() {
    let args: Vec<String> = vec!["pane".into(), "send-keys".into()];
    let v = parse_response(&args, true, "\n", "").unwrap();
    assert!(matches!(v.kind, JsonKind::Null));
    let args: Vec<String> = vec!["agent".into(), "prompt".into(), "w2:p3".into(), "private Jira text".into()];
    let e = parse_response(&args, false, "", "usage: agent prompt").unwrap_err();
    assert!(e.message.contains("usage: agent prompt"));
    assert!(!e.message.contains("private Jira text"));
    let args: Vec<String> = vec!["agent".into(), "list".into()];
    assert!(parse_response(&args, true, "invalid", "").is_err());
}

#[test]
fn api_errors_on_stderr_are_read_too() {
    let args: Vec<String> = vec!["agent".into(), "get".into(), "w2:p3".into()];
    let e = parse_response(&args, false, "", "  {\"error\":{\"code\":\"timeout\"}}\n").unwrap_err();
    assert_eq!(e.code.as_deref(), Some("timeout"));
    assert!(e.message.starts_with("herdr agent get failed: "));
}

#[test]
fn a_cli_that_cannot_start_is_reported() {
    let args: Vec<String> = vec!["agent".into(), "list".into()];
    let e = read_output(&args, CliOutput::NotStarted("no such file".into())).unwrap_err();
    assert_eq!(e.message, "failed to run herdr: no such file");
    assert!(e.code.is_none());
}

#[test]
fn split_parent_stays_in_selected_workspace() {
    let panes = json(r#"{"result": {"panes": [
        {"workspace_id": "w1", "pane_id": "w1:jira", "focused": true},
        {"workspace_id": "w2", "pane_id": "w2:p1"},
        {"workspace_id": "w2", "pane_id": "w2:p2", "focused": true}
    ]}}"#);
    assert_eq!(split_parent(&panes, "w2", "w1:jira").as_deref(), Some("w2:p2"));
    assert_eq!(split_parent(&panes, "w2", "w2:p1").as_deref(), Some("w2:p1"));
    assert_eq!(split_parent(&panes, "w1", "").as_deref(), Some("w1:jira"));
    assert_eq!(split_parent(&panes, "missing", "w1:jira"), None);
    let first = json(r#"{"result": {"panes": [{"workspace_id": "w2", "pane_id": "w2:p1"}]}}"#);
    assert_eq!(split_parent(&first, "w2", "w1:jira").as_deref(), Some("w2:p1"));
}

#[test]
fn submitted_multiline_prompt_uses_one_server_side_call() {
    let text = "Issue TEST-1: 'quotes' $HOME\nОписание задачи\n".repeat(200);
    let cmd = send_to_agent(&agent(), &text, true, 0);
    check_args(&["agent".into(), "prompt".into(), "w2:p3".into(), text.clone()], &cmd, 1);
    let out = CliOutput::Exited { success: true, stdout: "{\"result\": {}}\n".into(), stderr: String::new() };
    delivered(read_output(&cmd, out)).unwrap();
}

#[test]
fn unsubmitted_prompt_only_sends_literal_text() {
    let cmd = send_to_agent(&agent(), "one\ntwo", false, 0);
    check_args(&["pane".into(), "send-text".into(), "w2:p3".into(), "one\ntwo".into()], &cmd, 1);
    let out = CliOutput::Exited { success: true, stdout: "{\"result\": {}}\n".into(), stderr: String::new() };
    delivered(read_output(&cmd, out)).unwrap();
}

#[test]
fn prompt_failures_do_not_fall_back_to_raw_input() {
    for code in ["agent_not_found", "agent_blocked", "timeout"] {
        let cmd = send_to_agent(&agent(), "prompt", true, 0);
        let m = Mock::error(&["agent", "prompt", "w2:p3", "prompt"], code);
        check_args(&m.args, &cmd, 1);
        let out = CliOutput::Exited { success: false, stdout: format!("{}\n", m.response), stderr: String::new() };
        assert!(delivered(read_output(&cmd, out)).unwrap_err().contains(code));
    }
}

#[test]
fn cold_tab_waits_for_detection_and_idle_before_submitting() {
    let mut steps = tab_start_steps();
    steps.extend([
        Mock::error(&["agent", "get", "w2:p3"], "agent_not_found"),
        Mock::error(&["agent", "get", "w2:p3"], "agent_not_found"),
        Mock::ok(&["agent", "get", "w2:p3"], r#"{"result": {"agent": {"agent_status": "unknown"}}}"#),
        Mock::ok(
            &["agent", "wait", "w2:p3", "--until", "idle", "--timeout", "TIMEOUT<=4800"],
            r#"{"result": {}}"#,
        ),
        Mock::ok(&["agent", "prompt", "w2:p3", "prompt"], r#"{"result": {}}"#),
    ]);
    let started = delegate(&opts("tab"), true, 5000, steps).unwrap();
    assert_eq!(started.target, "w2:p3");
}

#[test]
fn readiness_failure_aborts_delivery_in_both_submit_modes() {
    for submit in [true, false] {
        let mut steps = tab_start_steps();
        steps.extend([
            Mock::ok(&["agent", "get", "w2:p3"], r#"{"result": {"agent": {}}}"#),
            Mock::error(
                &["agent", "wait", "w2:p3", "--until", "idle", "--timeout", "TIMEOUT<=5000"],
                "timeout",
            ),
        ]);
        let error = delegate(&opts("tab"), submit, 5000, steps).unwrap_err();
        assert!(error.contains("not ready; prompt not sent"));
        assert!(error.contains("timeout"));
    }
}

#[test]
fn detection_timeout_aborts_delivery() {
    let mut steps = tab_start_steps();
    let mut missing = Mock::error(&["agent", "get", "w2:p3"], "agent_not_found");
    missing.delay_ms = 50;
    steps.push(missing);
    let error = delegate(&opts("tab"), true, 20, steps).unwrap_err();
    assert!(error.contains("not detected within 20ms"));
}

#[test]
fn detection_errors_other_than_not_found_fail_immediately() {
    let (mut w, first) = wait_agent_status("w2:p3", "idle", 5000, 0);
    let error = drive(
        first,
        |ev, now| w.resume(ev, now),
        vec![Mock::error(&["agent", "get", "w2:p3"], "connection_failed")],
        0,
    )
    .unwrap_err();
    assert!(error.contains("connection_failed"));
}

#[test]
fn zero_readiness_budget_explicitly_skips_waiting() {
    let mut steps = tab_start_steps();
    steps.push(Mock::ok(&["pane", "send-text", "w2:p3", "prompt"], r#"{"result": {}}"#));
    delegate(&opts("tab"), false, 0, steps).unwrap();
}

#[test]
fn split_placements_create_then_run_in_selected_workspace() {
    for (direction, focus) in [("right", false), ("down", true)] {
        let steps = vec![
            Mock::ok(
                &["pane", "list", "--workspace", "w2"],
                r#"{"result": {"panes": [{"workspace_id": "w2", "pane_id": "w2:p1", "focused": true}]}}"#,
            ),
            Mock::ok(
                &[
                    "pane",
                    "split",
                    "w2:p1",
                    "--direction",
                    direction,
                    "--cwd",
                    "/tmp/project with spaces",
                    if focus { "--focus" } else { "--no-focus" },
                ],
                r#"{"result": {"pane": {"pane_id": "w2:p3", "terminal_id": "term_invalid_target"}}}"#,
            ),
            Mock::ok(&["pane", "run", "w2:p3", "codex --model 'model name'"], r#"{"result": {}}"#),
            Mock::ok(&["agent", "rename", "w2:p3", "jira-TEST-1"], r#"{"result": {}}"#),
            Mock::ok(&["agent", "get", "w2:p3"], r#"{"result": {"agent": {}}}"#),
            Mock::ok(
                &["agent", "wait", "w2:p3", "--until", "idle", "--timeout", "TIMEOUT<=5000"],
                r#"{"result": {}}"#,
            ),
            Mock::ok(&["agent", "prompt", "w2:p3", "prompt"], r#"{"result": {}}"#),
        ];
        let mut options = opts(direction);
        options.focus = focus;
        let started = delegate(&options, true, 5000, steps).unwrap();
        assert_eq!(started.target, "w2:p3");
    }
}

#[test]
fn malformed_split_response_does_not_start_or_send() {
    let steps = vec![
        Mock::ok(
            &["pane", "list", "--workspace", "w2"],
            r#"{"result": {"panes": [{"workspace_id": "w2", "pane_id": "w2:p1"}]}}"#,
        ),
        Mock::ok(
            &["pane", "split", "w2:p1", "--direction", "right", "--cwd", "/tmp/project with spaces", "--no-focus"],
            r#"{"result": {}}"#,
        ),
    ];
    assert!(delegate(&opts("right"), true, 5000, steps).unwrap_err().contains("no pane.pane_id"));
}

#[test]
fn empty_workspace_does_not_split_jira_pane_instead() {
    let (mut a, first) = start_agent(&opts("down"), OWN_PANE);
    let steps = vec![Mock::ok(&["pane", "list", "--workspace", "w2"], r#"{"result": {"panes": []}}"#)];
    let error = drive(first, |ev, _| a.resume(ev), steps, 0).unwrap_err();
    assert!(error.contains("no pane to split in workspace w2"));
}

#[test]
fn invalid_start_options_do_not_invoke_cli() {
    let run = |o: &StartAgentOpts| {
        let (mut a, first) = start_agent(o, OWN_PANE);
        drive(first, |ev, _| a.resume(ev), vec![], 0)
    };
    assert!(run(&opts("left")).is_err());
    let mut options = opts("tab");
    options.argv.clear();
    assert!(run(&options).is_err());
    options = opts("tab");
    options.name.clear();
    assert!(run(&options).is_err());
    options = opts("tab");
    options.workspace_id.clear();
    assert!(run(&options).is_err());
}

#[test]
fn missing_root_pane_is_found_in_the_pane_list() {
    let steps = vec![
        Mock::ok(
            &["tab", "create", "--workspace", "w2", "--cwd", "/tmp/project with spaces", "--label", "TEST-1", "--no-focus"],
            r#"{"result": {"tab": {"tab_id": "w2:t1"}}}"#,
        ),
        Mock::ok(
            &["pane", "list", "--workspace", "w2"],
            r#"{"result": {"panes": [{"tab_id": "w2:t0", "pane_id": "w2:p0"}, {"tab_id": "w2:t1", "pane_id": "w2:p9"}]}}"#,
        ),
        Mock::ok(&["pane", "run", "w2:p9", "codex --model 'model name'"], r#"{"result": {}}"#),
        Mock::ok(&["agent", "rename", "w2:p9", "jira-TEST-1"], r#"{"result": {}}"#),
    ];
    let (mut a, first) = start_agent(&opts("TAB "), OWN_PANE);
    let started = drive(first, |ev, _| a.resume(ev), steps, 0).unwrap();
    assert_eq!(started.pane_id, "w2:p9");
    assert_eq!(started.label, "codex");
    assert_eq!(started.status, "unknown");
    assert_eq!(started.cwd, "/tmp/project with spaces");
}

fn wt(branch: &str) -> WorktreeOpts {
    WorktreeOpts {
        branch: branch.into(),
        base: "main".into(),
        path: "/w/PROJ-7".into(),
        label: "PROJ-7".into(),
        trust_repository: false,
    }
}

#[test]
fn missing_worktree_is_created_with_base_and_path() {
    let steps = vec![
        Mock::error(
            &["worktree", "open", "--cwd", "/r", "--branch", "PROJ-7", "--label", "PROJ-7", "--focus"],
            "worktree_not_found",
        ),
        Mock::ok(
            &["worktree", "create", "--cwd", "/r", "--branch", "PROJ-7", "--base", "main", "--path", "/w/PROJ-7", "--label", "PROJ-7", "--focus"],
            r#"{"result": {"workspace": {"workspace_id": "w5"}, "root_pane": {"pane_id": "w5:p1", "cwd": "/w/PROJ-7"}}}"#,
        ),
    ];
    let (mut m, first) = open_or_create_worktree("/r", &wt("PROJ-7"), true);
    let opened = drive(first, |ev, _| m.resume(ev), steps, 0).unwrap();
    assert_eq!(opened.workspace_id, "w5");
    assert_eq!(opened.pane_id, "w5:p1");
    assert_eq!(opened.checkout_path, "/w/PROJ-7");
    assert!(!opened.already_open);
}

#[test]
fn other_worktree_errors_are_not_retried() {
    let steps = vec![Mock::error(
        &["worktree", "open", "--cwd", "/r", "--branch", "PROJ-7", "--label", "PROJ-7", "--focus"],
        "untrusted_repository",
    )];
    let (mut m, first) = open_or_create_worktree("/r", &wt("PROJ-7"), true);
    let error = drive(first, |ev, _| m.resume(ev), steps, 0).unwrap_err();
    assert!(error.contains("untrusted_repository"));
    let (mut m, first) = open_or_create_worktree("  ", &wt("PROJ-7"), true);
    assert_eq!(
        drive(first, |ev, _| m.resume(ev), vec![], 0).unwrap_err(),
        "worktree: repository directory is empty"
    );
    let (mut m, first) = open_or_create_worktree("/r", &wt(" "), true);
    assert_eq!(drive(first, |ev, _| m.resume(ev), vec![], 0).unwrap_err(), "worktree: branch name is empty");
}

#[test]
fn agent_in_an_open_worktree_gets_its_own_tab() {
    let mut o = opts("down");
    o.cwd = "/r".into();
    o.workspace_id = String::new();
    o.worktree = Some(wt("PROJ-7"));
    let steps = vec![
        Mock::ok(
            &["worktree", "open", "--cwd", "/r", "--branch", "PROJ-7", "--label", "PROJ-7", "--no-focus"],
            r#"{"result": {"already_open": true, "workspace": {"workspace_id": "w5", "worktree": {"checkout_path": "/w/PROJ-7"}}, "root_pane": {"pane_id": "w5:p1"}}}"#,
        ),
        Mock::ok(
            &["tab", "create", "--workspace", "w5", "--cwd", "/w/PROJ-7", "--label", "TEST-1", "--no-focus"],
            r#"{"result": {"tab": {"tab_id": "w5:t2"}, "root_pane": {"pane_id": "w5:p7"}}}"#,
        ),
        Mock::ok(&["pane", "run", "w5:p7", "codex --model 'model name'"], r#"{"result": {}}"#),
        Mock::ok(&["agent", "rename", "w5:p7", "jira-TEST-1"], r#"{"result": {}}"#),
        Mock::ok(&["pane", "send-text", "w5:p7", "prompt"], r#"{"result": {}}"#),
    ];
    let started = delegate(&o, false, 0, steps).unwrap();
    assert_eq!(started.pane_id, "w5:p7");
    assert_eq!(started.cwd, "/w/PROJ-7");
}

fn workspace(id: &str, number: u64, focused: bool, repo: Option<(&str, bool)>) -> HerdrWorkspace {
    HerdrWorkspace {
        id: id.into(),
        label: id.into(),
        number,
        focused,
        tab_count: 1,
        pane_count: 1,
        agent_status: String::new(),
        repo: repo.map(|(key, linked)| WorkspaceRepo {
            repo_key: format!("/x/{key}/.git"),
            repo_name: String::new(),
            repo_root: format!("/x/{key}"),
            checkout_path: format!("/x/{key}"),
            is_linked_worktree: linked,
        }),
    }
}

#[test]
fn projects_put_the_current_repo_first_then_by_workspace_number() {
    let ws = vec![
        workspace("w1", 4, false, Some(("web", false))),
        workspace("w2", 2, false, Some(("api", false))),
        workspace("w3", 1, false, None),
        workspace("w4", 9, true, Some(("jira", true))),
        workspace("w5", 3, false, Some(("web", true))),
    ];
    let ps = projects_from_workspaces(&ws, "w4");
    let names: Vec<&str> = ps.iter().map(|p| p.name.as_str()).collect();
    assert_eq!(names, vec!["jira", "api", "web"]);
    assert!(ps[0].current);
    assert_eq!(ps[2].open_worktrees, 1);
    assert_eq!(ps[2].root, "/x/web");
}

#[test]
fn projects_probe_workspaces_herdr_did_not_describe() {
    let steps = vec![
        Mock::ok(
            &["workspace", "list"],
            r#"{"result": {"workspaces": [
                {"workspace_id": "w1", "number": 2, "focused": true, "worktree": null},
                {"workspace_id": "w2", "number": 1, "worktree": {"repo_key": "/x/a/.git", "repo_name": "a", "repo_root": "/x/a"}},
                {"workspace_id": "w3", "number": 3}
            ]}}"#,
        ),
        Mock::ok(
            &["worktree", "list", "--workspace", "w1"],
            r#"{"result": {"source": {"repo_key": "/x/b/.git", "repo_name": "b", "repo_root": "/x/b"}, "worktrees": []}}"#,
        ),
        Mock::error(&["worktree", "list", "--workspace", "w3"], "not_a_repository"),
    ];
    let (mut l, first) = list_projects("");
    let ps = drive(first, |ev, _| l.resume(ev), steps, 0).unwrap();
    let names: Vec<&str> = ps.iter().map(|p| p.name.as_str()).collect();
    assert_eq!(names, vec!["b", "a"]);
    assert!(ps[0].current);
}

#[test]
fn json_documents_are_read_level_by_level() {
    let j = parse_json(" {\"b\": [1, \"x\", null], \"a\": {\"t\": true}} ").unwrap();
    assert_eq!(j.text, "{\"a\":{\"t\":true},\"b\":[1,\"x\",null]}");
    let entries = match &j.kind {
        JsonKind::Object(es) => es,
        _ => panic!("not an object"),
    };
    assert_eq!(entries.len(), 2);
    assert_eq!(entries[0].0, "a");
    assert_eq!(entries[0].1.text, "{\"t\":true}");
    assert!(matches!(&entries[0].1.kind, JsonKind::Object(inner) if inner.len() == 1
        && inner[0].0 == "t" && matches!(inner[0].1.kind, JsonKind::Bool(true))));
    assert_eq!(entries[1].0, "b");
    match &entries[1].1.kind {
        JsonKind::Array(items) => {
            assert_eq!(items.len(), 3);
            assert!(matches!(items[0].kind, JsonKind::Number(Some(1))));
            assert!(matches!(&items[1].kind, JsonKind::Str(s) if s == "x"));
            assert!(matches!(items[2].kind, JsonKind::Null));
        }
        _ => panic!("not an array"),
    }
    assert!(matches!(parse_json("-3").unwrap().kind, JsonKind::Number(None)));
    let e = parse_json("{\"a\": }").unwrap_err();
    assert!(e.contains("line 1"), "{e}");
}

use witchops::commands::quick_actions::{
    execute_quick_action, Progress, QuickActionExecutionResult, QuickActionRun,
};
use witchops::commands::steps::{parse_quick_action_steps, QuickActionCommandStep};
use witchops::error::{AppError, AppResult};
use witchops::executor::CommandResult;
use witchops::models::QuickAction;
use witchops::sql::SqlValue;

/// The steps in a JSON text, or why they cannot be read.
fn read(raw: &str) -> Result<Vec<QuickActionCommandStep>, String> {
    let value: serde_json::Value = serde_json::from_str(raw).map_err(|e| e.to_string())?;
    let items = value.as_array().ok_or("not an array")?;
    let mut steps = Vec::new();
    for item in items {
        let field = |name: &str| item.get(name).and_then(|v| v.as_str()).map(|s| s.to_string());
        steps.push(QuickActionCommandStep {
            step_type: field("type").ok_or("missing field `type`")?,
            value: field("value").ok_or("missing field `value`")?,
            guard: field("guard"),
            confirm: item.get("confirm").and_then(|v| v.as_bool()).unwrap_or(false),
        });
    }
    Ok(steps)
}

fn step(value: &str, guard: Option<&str>) -> QuickActionCommandStep {
    QuickActionCommandStep {
        step_type: "command".to_string(),
        value: value.to_string(),
        guard: guard.map(|g| g.to_string()),
        confirm: false,
    }
}

fn action(approval: &str) -> QuickAction {
    QuickAction {
        id: "qa".to_string(),
        name: "Reload".to_string(),
        icon: None,
        target: None,
        steps: "raw steps".to_string(),
        approval: approval.to_string(),
        audit: true,
        created_at: "t1".to_string(),
        updated_at: "t2".to_string(),
    }
}

fn start(steps: Vec<QuickActionCommandStep>, confirmed: bool) -> QuickActionRun {
    execute_quick_action("qa", 3, "t2", confirmed)
        .loaded(Some(action("always_approve")))
        .ok()
        .unwrap()
        .parsed(Ok(steps))
        .ok()
        .unwrap()
        .located(Some("web-1".to_string()))
        .ok()
        .unwrap()
}

fn reply(exit_code: i32, audit_id: i64) -> AppResult<(CommandResult, i64)> {
    Ok((CommandResult { exit_code, output: String::new() }, audit_id))
}

/// Runs a quick action with the given exit codes and returns what was run and what came of it.
fn run(
    steps: Vec<QuickActionCommandStep>,
    exit_codes: &[i32],
) -> (Vec<String>, QuickActionExecutionResult) {
    let mut run = start(steps, true);
    let mut sent = Vec::new();
    for (i, code) in exit_codes.iter().enumerate() {
        sent.push(run.command().to_string());
        match run.executed(reply(*code, 100 + i as i64)).unwrap() {
            Progress::Next(next) => run = next,
            Progress::Done(result) => {
                assert_eq!(i + 1, exit_codes.len());
                return (sent, result);
            }
        }
    }
    panic!("the run is not over");
}

fn message<T>(r: AppResult<T>) -> String {
    match r {
        Err(e) => e.to_string(),
        Ok(_) => panic!("an error was expected"),
    }
}

#[test]
fn quick_action_steps_accept_supported_commands() {
    let steps = parse_quick_action_steps(read(
        r#"[{"type":"command","value":"nginx -t","guard":"test -f /etc/nginx/nginx.conf"}]"#,
    ))
    .expect("合法步骤");
    assert_eq!(steps.len(), 1);
}

#[test]
fn quick_action_steps_reject_unknown_type() {
    let error = parse_quick_action_steps(read(r#"[{"type":"script","value":"echo unsafe"}]"#))
        .expect_err("未知类型必须拒绝");
    assert!(error.to_string().contains("尚不支持"));
}

#[test]
fn quick_action_steps_reject_blank_command() {
    let error = parse_quick_action_steps(read(r#"[{"type":"command","value":"   "}]"#))
        .expect_err("空命令必须拒绝");
    assert!(error.to_string().contains("命令为空"));
}

#[test]
fn faults_of_steps_are_reported_by_number() {
    assert_eq!(message(parse_quick_action_steps(Ok(vec![]))), "快捷指令没有可执行步骤");
    assert_eq!(
        message(parse_quick_action_steps(Err("EOF at line 1".to_string()))),
        "快捷指令步骤不是合法 JSON: EOF at line 1"
    );
    let script = QuickActionCommandStep {
        step_type: "script".to_string(),
        ..step("x", None)
    };
    assert_eq!(
        message(parse_quick_action_steps(Ok(vec![step("ls", None), script, step("", None)]))),
        "快捷指令第 2 步类型 script 尚不支持"
    );
    assert_eq!(
        message(parse_quick_action_steps(Ok(vec![step("ls", None), step("\u{3000}\t", None)]))),
        "快捷指令第 2 步命令为空"
    );
}

#[test]
fn the_action_is_looked_up_and_compared_with_the_preview() {
    let request = execute_quick_action("qa", 3, "t2", true);
    let st = request.lookup();
    assert_eq!(st.sql, "SELECT * FROM quick_actions WHERE id = ?");
    assert!(matches!(&st.binds[..], [SqlValue::Text(t)] if t == "qa"));
    assert_eq!(request.loaded(Some(action("x"))).ok().unwrap().steps(), "raw steps");
    assert_eq!(
        message(execute_quick_action("qa", 3, "t2", true).loaded(None)),
        "快捷指令 qa"
    );
    assert_eq!(
        message(execute_quick_action("qa", 3, "t1", true).loaded(Some(action("x")))),
        "快捷指令在预览后已被修改，请重新检查并批准"
    );
}

fn approve(approval: &str, confirm: bool, confirmed: bool) -> Option<String> {
    let steps = vec![
        step("ls", None),
        QuickActionCommandStep { confirm, ..step("reboot", None) },
    ];
    execute_quick_action("qa", 3, "t2", confirmed)
        .loaded(Some(action(approval)))
        .ok()
        .unwrap()
        .parsed(Ok(steps))
        .err()
        .map(|e| e.to_string())
}

#[test]
fn confirmation_is_asked_for_when_policy_or_step_calls_for_it() {
    let refused = Some("该快捷指令需要人工确认".to_string());
    assert_eq!(approve("always_approve", false, false), None);
    assert_eq!(approve("always_approve", true, false), refused);
    assert_eq!(approve("ask", false, false), refused);
    assert_eq!(approve("ask", true, true), None);
    assert_eq!(approve("always_approve", true, true), None);
}

#[test]
fn the_server_has_to_exist() {
    let approved = || {
        execute_quick_action("qa", -3, "t2", true)
            .loaded(Some(action("ask")))
            .ok()
            .unwrap()
            .parsed(Ok(vec![step("ls", None)]))
            .ok()
            .unwrap()
    };
    let st = approved().host_lookup();
    assert_eq!(st.sql, "SELECT host FROM servers WHERE id = ?");
    assert!(matches!(st.binds[..], [SqlValue::Integer(-3)]));
    assert_eq!(message(approved().located(None)), "服务器 -3");
    let run = approved().located(Some("web-1".to_string())).ok().unwrap();
    assert_eq!(run.server_id(), -3);
    assert_eq!(run.server_host(), "web-1");
}

#[test]
fn every_command_runs_behind_its_guard() {
    let steps = vec![
        step("nginx -t", Some("test -f conf")),
        step("ls", Some("  ")),
        step("reload", Some("true")),
    ];
    let (sent, result) = run(steps, &[0, 0, 0, 0, 0]);
    assert_eq!(sent, ["test -f conf", "nginx -t", "ls", "true", "reload"]);
    assert!(result.success);
    assert_eq!(result.stopped_at, None);
    assert_eq!(result.action_id, "qa");
    let kinds: Vec<(usize, &str)> =
        result.steps.iter().map(|s| (s.step_index, s.kind.as_str())).collect();
    assert_eq!(
        kinds,
        [(0, "guard"), (0, "command"), (1, "command"), (2, "guard"), (2, "command")]
    );
    assert!(result.steps.iter().all(|s| s.success && s.exit_code == 0));
    assert_eq!(result.steps[3].audit_id, 103);
    assert_eq!(result.steps[3].command, "true");
}

#[test]
fn a_failed_guard_stops_the_run() {
    let (sent, result) = run(vec![step("a", None), step("b", Some("g")), step("c", None)], &[0, 1]);
    assert_eq!(sent, ["a", "g"]);
    assert!(!result.success);
    assert_eq!(result.stopped_at, Some(1));
    assert_eq!(result.steps.len(), 2);
    assert_eq!(result.steps[1].kind, "guard");
    assert_eq!(result.steps[1].exit_code, 1);
    assert!(!result.steps[1].success);
}

#[test]
fn a_failed_command_stops_the_run() {
    let (sent, result) = run(vec![step("a", Some("g")), step("b", None)], &[0, -1]);
    assert_eq!(sent, ["g", "a"]);
    assert_eq!(result.stopped_at, Some(0));
    assert_eq!(result.steps[1].exit_code, -1);
    let (_, result) = run(vec![step("a", None), step("b", None)], &[0, 7]);
    assert!(!result.success);
    assert_eq!(result.stopped_at, Some(1));
}

#[test]
fn an_error_ends_the_run() {
    let run = start(vec![step("a", None), step("b", None)], true);
    match run.executed(Err(AppError::Ssh("reset".to_string()))) {
        Err(AppError::Ssh(t)) => assert_eq!(t, "reset"),
        _ => panic!("the error must come through"),
    }
}

#[test]
fn the_audit_context_names_step_and_approver() {
    let run = start(vec![step("ls", Some("true"))], true);
    let ctx = run.context();
    assert_eq!(ctx.source, "quick_action");
    assert_eq!(ctx.tool_name, "quick_action_guard");
    assert_eq!(ctx.command.as_deref(), Some("true"));
    assert_eq!(ctx.args.as_deref(), Some(r#"{"action_id":"qa","step":0}"#));
    assert_eq!(ctx.approved_by.as_deref(), Some("user:quick_action"));
    assert_eq!(ctx.session_id, None);
    assert_eq!(ctx.proposal_id, None);
    let pending = run.begin();
    assert!(matches!(&pending.intent().binds[6], SqlValue::Text(t) if t == "true"));
    let run = match run.executed(reply(0, 1)).unwrap() {
        Progress::Next(next) => next,
        Progress::Done(_) => panic!("the command is still to be run"),
    };
    let ctx = run.context();
    assert_eq!(ctx.tool_name, "run_quick_action");
    assert_eq!(ctx.command.as_deref(), Some("ls"));

    let run = start(vec![step("ls", None)], false);
    assert_eq!(run.context().approved_by.as_deref(), Some("policy:always_approve"));
}

#[test]
fn action_ids_are_written_as_json_strings() {
    for id in [
        "plain", "", "say \"hi\"", "back\\slash", "tab\tnew\nline\r", "\u{8}\u{c}\u{0}\u{1f}\u{7f}",
        "运维 😀", "a/b", "\u{2028}",
    ] {
        let run = execute_quick_action(id, 3, "t2", true)
            .loaded(Some(action("ask")))
            .ok()
            .unwrap()
            .parsed(Ok(vec![step("ls", None)]))
            .ok()
            .unwrap()
            .located(Some("web-1".to_string()))
            .ok()
            .unwrap();
        let mut object = serde_json::Map::new();
        object.insert("action_id".to_string(), serde_json::Value::from(id));
        object.insert("step".to_string(), serde_json::Value::from(0usize));
        let expected = serde_json::Value::Object(object).to_string();
        assert_eq!(run.context().args, Some(expected));
    }
    let run = execute_quick_action("a\"\\\n\u{1}", 3, "t2", true)
        .loaded(Some(action("ask")))
        .ok()
        .unwrap()
        .parsed(Ok(vec![step("ls", None)]))
        .ok()
        .unwrap()
        .located(Some("web-1".to_string()))
        .ok()
        .unwrap();
    assert_eq!(
        run.context().args.as_deref(),
        Some("{\"action_id\":\"a\\\"\\\\\\n\\u0001\",\"step\":0}")
    );
}

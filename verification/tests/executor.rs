use witchops::audit::AuditContext;
use witchops::error::{AppError, AppResult};
use witchops::executor::{
    execute_and_audit, execute_and_audit_at, CommandResult, RegisteredExecution,
};
use witchops::sql::SqlValue;

fn context(command: Option<&str>) -> AuditContext {
    AuditContext {
        source: "agent".to_string(),
        session_id: None,
        tool_name: "run_command".to_string(),
        command: command.map(|c| c.to_string()),
        args: None,
        approved_by: None,
        proposal_id: None,
    }
}

fn text(value: &SqlValue) -> &str {
    match value {
        SqlValue::Text(t) => t,
        other => panic!("no text: {other:?}"),
    }
}

fn registered() -> RegisteredExecution {
    execute_and_audit_at("t0", 3, "web-1", "uptime", &context(None))
        .registered(Ok(41))
        .ok()
        .unwrap()
}

fn exited(exit_code: i32) -> AppResult<CommandResult> {
    Ok(CommandResult { exit_code, output: "up 3 days".to_string() })
}

#[test]
fn the_intent_is_registered_first() {
    let pending = execute_and_audit(3, "web-1", "uptime", &context(None));
    assert_eq!(text(&pending.intent().binds[6]), "uptime");
    assert_eq!(text(&pending.intent().binds[11]), "pending");
    match pending.registered(Err(AppError::Database("disk full".to_string()))) {
        Err(AppError::Database(t)) => assert_eq!(t, "disk full"),
        _ => panic!("a refused intent must end the execution"),
    }
}

#[test]
fn the_command_asked_for_is_sent() {
    let pending = execute_and_audit_at("t0", 3, "web-1", "uptime", &context(Some("shown")));
    assert_eq!(text(&pending.intent().binds[6]), "shown");
    let r = pending.registered(Ok(41)).ok().unwrap();
    assert_eq!(r.server_id(), 3);
    assert_eq!(r.command(), "uptime");
    assert_eq!(r.audit_id(), 41);
}

#[test]
fn a_success_is_recorded_and_reported() {
    let c = registered().completed(exited(0), 15);
    let binds = &c.update().binds;
    assert_eq!(text(&binds[0]), "succeeded");
    assert!(matches!(binds[1], SqlValue::Integer(0)));
    assert_eq!(text(&binds[2]), "up 3 days");
    assert!(matches!(binds[3], SqlValue::Boolean(true)));
    assert!(matches!(binds[4], SqlValue::Integer(15)));
    assert!(matches!(binds[5], SqlValue::Integer(41)));
    let (result, audit_id) = c.recorded(Ok(1)).unwrap();
    assert!(result.success());
    assert_eq!(result.combined_output(), "up 3 days");
    assert_eq!(audit_id, 41);
}

#[test]
fn a_failure_is_recorded_and_reported() {
    let c = registered().completed(exited(2), 15);
    assert_eq!(text(&c.update().binds[0]), "failed");
    assert!(matches!(c.update().binds[1], SqlValue::Integer(2)));
    assert!(matches!(c.update().binds[3], SqlValue::Boolean(false)));
    let (result, _) = c.recorded(Ok(1)).unwrap();
    assert!(!result.success());
    assert_eq!(result.exit_code, 2);
}

#[test]
fn a_broken_connection_leaves_the_outcome_unknown() {
    let c = registered().completed(Err(AppError::Ssh("reset".to_string())), 15);
    assert_eq!(text(&c.update().binds[0]), "unknown");
    assert!(matches!(c.update().binds[1], SqlValue::Null));
    assert_eq!(text(&c.update().binds[2]), "reset");
    assert!(matches!(c.update().binds[3], SqlValue::Boolean(false)));
    match c.recorded(Ok(1)) {
        Err(AppError::Ssh(t)) => assert_eq!(t, "reset"),
        other => panic!("unexpected: {other:?}"),
    }
}

#[test]
fn an_unrecorded_result_is_withheld() {
    match registered().completed(exited(0), 15).recorded(Ok(0)) {
        Err(AppError::Internal(t)) => assert_eq!(
            t,
            "命令可能已在服务器 3 上执行，但审计结果更新失败（audit_id=41）：\
             审计记录 41 不存在或已经完成。请人工核对后再操作"
        ),
        other => panic!("unexpected: {other:?}"),
    }
    let c = registered().completed(Err(AppError::Ssh("reset".to_string())), 15);
    match c.recorded(Err(AppError::Database("locked".to_string()))) {
        Err(AppError::Internal(t)) => assert_eq!(
            t,
            "命令可能已在服务器 3 上执行，但审计结果更新失败（audit_id=41）：locked。请人工核对后再操作"
        ),
        other => panic!("unexpected: {other:?}"),
    }
}

use witchops::audit::{
    begin_audit_action, begin_audit_action_at, check_finished, finish_audit_action, log_action,
    log_action_at, AuditContext,
};
use witchops::error::AppError;
use witchops::sql::{SqlValue, Statement};

fn show(value: &SqlValue) -> String {
    match value {
        SqlValue::Null => "NULL".to_string(),
        SqlValue::Integer(i) => i.to_string(),
        SqlValue::Boolean(b) => b.to_string(),
        SqlValue::Text(t) => format!("'{t}'"),
    }
}

fn values(statement: &Statement) -> Vec<String> {
    assert_eq!(statement.sql.matches('?').count(), statement.binds.len());
    statement.binds.iter().map(show).collect()
}

fn context(command: Option<&str>) -> AuditContext {
    AuditContext {
        source: "agent".to_string(),
        session_id: Some("s1".to_string()),
        tool_name: "run_command".to_string(),
        command: command.map(|c| c.to_string()),
        args: None,
        approved_by: Some("user:zhang".to_string()),
        proposal_id: None,
    }
}

#[test]
fn pending_entries_hold_the_intent() {
    let st = begin_audit_action_at("t0", Some(3), Some("web-1"), Some("uptime"), &context(None));
    assert_eq!(
        values(&st),
        [
            "'t0'", "'s1'", "3", "'web-1'", "'agent'", "'run_command'", "'uptime'", "NULL", "NULL",
            "NULL", "false", "'pending'", "'user:zhang'", "NULL", "0"
        ]
    );
    assert!(st.sql.starts_with("INSERT INTO audit_logs\n"));
    assert!(st.sql.ends_with("RETURNING id"));
}

#[test]
fn the_given_command_goes_before_that_of_the_context() {
    let st = begin_audit_action_at("t0", None, None, Some("a"), &context(Some("b")));
    assert_eq!(values(&st)[6], "'a'");
    let st = begin_audit_action_at("t0", None, None, None, &context(Some("b")));
    assert_eq!(values(&st)[6], "'b'");
    let st = begin_audit_action_at("t0", None, None, None, &context(None));
    assert_eq!(values(&st)[6], "NULL");
}

#[test]
fn logged_entries_are_final() {
    let st = log_action_at("t0", None, None, true, Some("ok"), &context(Some("cat x")));
    assert_eq!(
        values(&st),
        [
            "'t0'", "'s1'", "NULL", "NULL", "'agent'", "'run_command'", "'cat x'", "NULL", "NULL",
            "'ok'", "true", "'succeeded'", "'user:zhang'", "NULL", "0"
        ]
    );
    let long = "z".repeat(2100);
    let st = log_action_at("t0", None, None, false, Some(&long), &context(None));
    let v = values(&st);
    assert_eq!(v[9], format!("'{}\n...(输出已截断,共 2100 字符)'", "z".repeat(2000)));
    assert_eq!(v[10], "false");
    assert_eq!(v[11], "'failed'");
}

#[test]
fn the_clock_gives_utc_timestamps() {
    for st in [
        begin_audit_action(Some(1), None, None, &context(None)),
        log_action(None, None, true, None, &context(None)),
    ] {
        match &st.binds[0] {
            SqlValue::Text(t) => {
                assert!(t.len() >= 25);
                assert!(t.ends_with("+00:00"));
                assert_eq!(t.as_bytes()[10], b'T');
            }
            other => panic!("no timestamp: {other:?}"),
        }
    }
}

#[test]
fn only_final_outcomes_complete_an_entry() {
    for outcome in ["succeeded", "failed", "unknown"] {
        let st = finish_audit_action(7, outcome, Some(-1), Some("out"), false, 12).unwrap();
        assert_eq!(
            values(&st),
            [&format!("'{outcome}'"), "-1", "'out'", "false", "12", "7"]
        );
        assert!(st.sql.ends_with("WHERE id=? AND outcome='pending'"));
    }
    for outcome in ["pending", "", "Succeeded", "done"] {
        match finish_audit_action(7, outcome, None, None, true, 0) {
            Err(AppError::InvalidInput(text)) => {
                assert_eq!(text, format!("非法审计结果状态: {outcome}"))
            }
            other => panic!("unexpected: {other:?}"),
        }
    }
}

#[test]
fn completing_without_a_result_binds_nulls() {
    let st = finish_audit_action(7, "unknown", None, None, false, 0).unwrap();
    assert_eq!(values(&st), ["'unknown'", "NULL", "NULL", "false", "0", "7"]);
}

#[test]
fn exactly_one_pending_entry_is_completed() {
    assert!(check_finished(7, 1).is_ok());
    for rows in [0, 2] {
        match check_finished(-7, rows) {
            Err(AppError::Internal(text)) => assert_eq!(text, "审计记录 -7 不存在或已经完成"),
            other => panic!("unexpected: {other:?}"),
        }
    }
}

use witchops::commands::audit_logs::{
    audit_counts, audit_stats, build_audit_query, get_session_audit_logs, query_audit_logs,
};
use witchops::models::AuditFilter;
use witchops::sql::{SqlValue, Statement};

fn nothing() -> AuditFilter {
    AuditFilter {
        server_id: None,
        session_id: None,
        source: None,
        success: None,
        search: None,
        from: None,
        to: None,
        limit: 50,
        offset: 0,
    }
}

fn values(statement: &Statement) -> Vec<String> {
    assert_eq!(statement.sql.matches('?').count(), statement.binds.len());
    statement
        .binds
        .iter()
        .map(|v| match v {
            SqlValue::Null => "NULL".to_string(),
            SqlValue::Integer(i) => i.to_string(),
            SqlValue::Boolean(b) => b.to_string(),
            SqlValue::Text(t) => format!("'{t}'"),
        })
        .collect()
}

#[test]
fn a_listing_without_conditions() {
    assert_eq!(
        build_audit_query(&nothing()),
        "SELECT * FROM audit_logs  ORDER BY timestamp DESC LIMIT ? OFFSET ?"
    );
    assert_eq!(values(&query_audit_logs(&nothing())), ["50", "0"]);
}

#[test]
fn a_listing_with_every_condition() {
    let f = AuditFilter {
        server_id: Some(3),
        session_id: Some("s1".to_string()),
        source: Some("agent".to_string()),
        success: Some(false),
        search: Some("nginx".to_string()),
        from: Some("2025-01-01".to_string()),
        to: Some("2025-02-01".to_string()),
        limit: 20,
        offset: 40,
    };
    let st = query_audit_logs(&f);
    assert_eq!(
        st.sql,
        "SELECT * FROM audit_logs WHERE server_id = ? AND session_id = ? AND source = ? AND \
         success = ? AND (command LIKE ? OR tool_name LIKE ? OR output LIKE ?) AND \
         timestamp >= ? AND timestamp <= ? ORDER BY timestamp DESC LIMIT ? OFFSET ?"
    );
    assert_eq!(
        values(&st),
        [
            "3", "'s1'", "'agent'", "false", "'%nginx%'", "'%nginx%'", "'%nginx%'",
            "'2025-01-01'", "'2025-02-01'", "20", "40"
        ]
    );
}

#[test]
fn every_combination_of_conditions_is_fully_bound() {
    for mask in 0..128u32 {
        let has = |bit: u32| mask & (1 << bit) != 0;
        let word = |bit: u32, w: &str| if has(bit) { Some(w.to_string()) } else { None };
        let f = AuditFilter {
            server_id: if has(0) { Some(1) } else { None },
            session_id: word(1, "b"),
            source: word(2, "c"),
            success: if has(3) { Some(true) } else { None },
            search: word(4, "e"),
            from: word(5, "f"),
            to: word(6, "g"),
            limit: 1,
            offset: 0,
        };
        let st = query_audit_logs(&f);
        assert_eq!(st.sql, build_audit_query(&f));
        let expected = mask.count_ones() as usize + if has(4) { 2 } else { 0 } + 2;
        assert_eq!(values(&st).len(), expected);
    }
}

#[test]
fn pages_are_bounded() {
    for (limit, offset, expected) in [
        (0, 0, ["1", "0"]),
        (-5, -5, ["1", "0"]),
        (1, 1, ["1", "1"]),
        (500, 7, ["500", "7"]),
        (501, 0, ["500", "0"]),
        (i64::MAX, i64::MIN, ["500", "0"]),
    ] {
        let f = AuditFilter { limit, offset, ..nothing() };
        assert_eq!(values(&query_audit_logs(&f)), expected);
    }
}

#[test]
fn the_entries_of_a_session() {
    let st = get_session_audit_logs("s1");
    assert_eq!(
        st.sql,
        "SELECT * FROM audit_logs WHERE session_id = ? ORDER BY timestamp ASC"
    );
    assert_eq!(values(&st), ["'s1'"]);
}

#[test]
fn statistics_of_the_audit_log() {
    let c = audit_counts();
    assert_eq!(c.total.sql, "SELECT COUNT(*) AS c FROM audit_logs");
    assert_eq!(
        c.success.sql,
        "SELECT COUNT(*) AS c FROM audit_logs WHERE outcome = 'succeeded'"
    );
    assert_eq!(c.failed.sql, "SELECT COUNT(*) AS c FROM audit_logs WHERE outcome = 'failed'");
    assert_eq!(c.unknown.sql, "SELECT COUNT(*) AS c FROM audit_logs WHERE outcome = 'unknown'");
    assert_eq!(c.pending.sql, "SELECT COUNT(*) AS c FROM audit_logs WHERE outcome = 'pending'");
    let s = audit_stats(Some(10), Some(6), Some(3), None, Some(1));
    assert_eq!((s.total, s.success, s.failed, s.unknown, s.pending), (10, 6, 3, 0, 1));
}

use witchops::commands::knowledge::{
    delete_doc, delete_quick_action, delete_skill, doc_to_skill, found_doc, found_skill, get_doc,
    get_skill, list_docs, list_enabled_skills, list_quick_actions, list_skills, toggle_skill,
    update_doc_status, upsert_doc, upsert_quick_action, upsert_skill,
};
use witchops::error::AppError;
use witchops::models::{Doc, QuickAction, Skill};
use witchops::sql::{SqlValue, Statement};

fn values(statement: &Statement) -> Vec<String> {
    assert_eq!(statement.sql.matches('?').count(), statement.binds.len());
    statement
        .binds
        .iter()
        .map(|v| match v {
            SqlValue::Null => "NULL".to_string(),
            SqlValue::Integer(i) => i.to_string(),
            SqlValue::Boolean(b) => b.to_string(),
            SqlValue::Text(t) => format!("'{t}'"),
        })
        .collect()
}

fn skill() -> Skill {
    Skill {
        id: "sk".to_string(),
        title: "Restart".to_string(),
        content: "steps".to_string(),
        triggers: None,
        tags: Some("web".to_string()),
        applies_to: None,
        risk_level: "low".to_string(),
        enabled: true,
        source: "manual".to_string(),
        source_doc_id: None,
        version: 2,
        created_at: "t1".to_string(),
        updated_at: "t2".to_string(),
    }
}

fn doc(status: &str) -> Doc {
    Doc {
        id: "d1".to_string(),
        doc_type: "runbook".to_string(),
        title: "Outage".to_string(),
        content: "what we did".to_string(),
        session_id: None,
        server_id: Some(4),
        generated_by: Some("agent".to_string()),
        tags: Some("db".to_string()),
        status: status.to_string(),
        created_at: "t1".to_string(),
        updated_at: "t2".to_string(),
    }
}

#[test]
fn listings() {
    for (st, sql) in [
        (list_skills(), "SELECT * FROM skills ORDER BY title"),
        (list_enabled_skills(), "SELECT * FROM skills WHERE enabled = 1 ORDER BY title"),
        (list_quick_actions(), "SELECT * FROM quick_actions ORDER BY name"),
        (list_docs(), "SELECT * FROM docs ORDER BY datetime(created_at) DESC"),
    ] {
        assert_eq!(st.sql, sql);
        assert!(values(&st).is_empty());
    }
}

#[test]
fn lookups_and_deletions() {
    for (st, sql) in [
        (get_skill("x"), "SELECT * FROM skills WHERE id = ?"),
        (get_doc("x"), "SELECT * FROM docs WHERE id = ?"),
        (delete_skill("x"), "DELETE FROM skills WHERE id = ?"),
        (delete_quick_action("x"), "DELETE FROM quick_actions WHERE id = ?"),
        (delete_doc("x"), "DELETE FROM docs WHERE id = ?"),
    ] {
        assert_eq!(st.sql, sql);
        assert_eq!(values(&st), ["'x'"]);
    }
}

#[test]
fn what_is_missing_is_reported() {
    assert_eq!(found_skill("sk", Some(skill())).unwrap().title, "Restart");
    assert_eq!(found_doc("d1", Some(doc("draft"))).unwrap().title, "Outage");
    match found_skill("sk", None) {
        Err(AppError::NotFound(t)) => assert_eq!(t, "技能 sk"),
        other => panic!("unexpected: {other:?}"),
    }
    match found_doc("d1", None) {
        Err(AppError::NotFound(t)) => assert_eq!(t, "文档 d1"),
        other => panic!("unexpected: {other:?}"),
    }
}

#[test]
fn stored_records_bind_their_columns_in_order() {
    assert_eq!(
        values(&upsert_skill(&skill())),
        [
            "'sk'", "'Restart'", "'steps'", "NULL", "'web'", "NULL", "'low'", "true", "'manual'",
            "NULL", "2"
        ]
    );
    assert_eq!(
        values(&upsert_doc(&doc("draft"))),
        [
            "'d1'", "'runbook'", "'Outage'", "'what we did'", "NULL", "4", "'agent'", "'db'",
            "'draft'"
        ]
    );
    let action = QuickAction {
        id: "qa".to_string(),
        name: "Reload".to_string(),
        icon: None,
        target: Some("web".to_string()),
        steps: "[]".to_string(),
        approval: "always_approve".to_string(),
        audit: true,
        created_at: "t1".to_string(),
        updated_at: "t2".to_string(),
    };
    assert_eq!(
        values(&upsert_quick_action(&action)),
        ["'qa'", "'Reload'", "NULL", "'web'", "'[]'", "'always_approve'", "true"]
    );
}

#[test]
fn changes_bind_the_new_value_before_the_id() {
    assert_eq!(values(&toggle_skill("sk", false)), ["false", "'sk'"]);
    assert_eq!(values(&update_doc_status("d1", "reviewed")), ["'reviewed'", "'d1'"]);
}

#[test]
fn only_reviewed_documents_become_skills() {
    let st = doc_to_skill("d1", "sk", "Outage SOP", Some(doc("reviewed"))).unwrap();
    assert_eq!(values(&st), ["'sk'", "'Outage SOP'", "'what we did'", "'db'", "'d1'"]);
    assert!(st.sql.contains("'low', 0, 'from_doc', ?, 1)"));
    for status in ["draft", "archived", "Reviewed", ""] {
        match doc_to_skill("d1", "sk", "t", Some(doc(status))) {
            Err(AppError::InvalidInput(t)) => {
                assert_eq!(t, "只有已审核（reviewed）的文档才能转换为技能")
            }
            other => panic!("unexpected: {other:?}"),
        }
    }
    match doc_to_skill("d1", "sk", "t", None) {
        Err(AppError::NotFound(t)) => assert_eq!(t, "文档 d1"),
        other => panic!("unexpected: {other:?}"),
    }
}

use sqlx::query::Query;
use sqlx::sqlite::{SqliteArguments, SqlitePool, SqlitePoolOptions, SqliteRow};
use sqlx::{Row, Sqlite};
use witchops::audit::{
    begin_audit_action_at, check_finished, finish_audit_action, log_action_at, AuditContext,
};
use witchops::commands::audit_logs::{
    audit_counts, audit_stats, get_session_audit_logs, query_audit_logs,
};
use witchops::commands::knowledge::{
    delete_doc, delete_quick_action, delete_skill, doc_to_skill, get_doc, get_skill, list_docs,
    list_enabled_skills, list_quick_actions, list_skills, toggle_skill, update_doc_status,
    upsert_doc, upsert_quick_action, upsert_skill,
};
use witchops::commands::quick_actions::execute_quick_action;
use witchops::models::{AuditFilter, Doc, QuickAction, Skill};
use witchops::sql::{SqlValue, Statement};

const SCHEMA: [&str; 4] = [
    "CREATE TABLE audit_logs (id INTEGER PRIMARY KEY, timestamp TEXT, session_id TEXT, \
     server_id INTEGER, server_host TEXT, source TEXT, tool_name TEXT, command TEXT, args TEXT, \
     exit_code INTEGER, output TEXT, success BOOLEAN, outcome TEXT, approved_by TEXT, \
     proposal_id TEXT, duration_ms INTEGER)",
    "CREATE TABLE skills (id TEXT PRIMARY KEY, title TEXT, content TEXT, triggers TEXT, tags TEXT, \
     applies_to TEXT, risk_level TEXT, enabled BOOLEAN, source TEXT, source_doc_id TEXT, \
     version INTEGER, updated_at TEXT)",
    "CREATE TABLE docs (id TEXT PRIMARY KEY, type TEXT, title TEXT, content TEXT, session_id TEXT, \
     server_id INTEGER, generated_by TEXT, tags TEXT, status TEXT, created_at TEXT, \
     updated_at TEXT)",
    "CREATE TABLE quick_actions (id TEXT PRIMARY KEY, name TEXT, icon TEXT, target TEXT, \
     steps TEXT, approval TEXT, audit BOOLEAN, updated_at TEXT)",
];

async fn open() -> SqlitePool {
    let pool = SqlitePoolOptions::new()
        .max_connections(1)
        .connect("sqlite::memory:")
        .await
        .unwrap();
    for table in SCHEMA {
        sqlx::query(table).execute(&pool).await.unwrap();
    }
    pool
}

fn query(statement: &Statement) -> Query<'_, Sqlite, SqliteArguments<'_>> {
    let mut q = sqlx::query(&statement.sql);
    for value in &statement.binds {
        q = match value {
            SqlValue::Null => q.bind(None::<String>),
            SqlValue::Integer(i) => q.bind(*i),
            SqlValue::Boolean(b) => q.bind(*b),
            SqlValue::Text(t) => q.bind(t.as_str()),
        };
    }
    q
}

async fn rows(db: &SqlitePool, statement: &Statement) -> Vec<SqliteRow> {
    query(statement).fetch_all(db).await.unwrap()
}

async fn change(db: &SqlitePool, statement: &Statement) -> u64 {
    query(statement).execute(db).await.unwrap().rows_affected()
}

fn in_runtime<F: std::future::Future<Output = ()>>(work: F) {
    tokio::runtime::Builder::new_current_thread()
        .enable_all()
        .build()
        .unwrap()
        .block_on(work)
}

fn context() -> AuditContext {
    AuditContext {
        source: "agent".to_string(),
        session_id: Some("s1".to_string()),
        tool_name: "run_command".to_string(),
        command: None,
        args: None,
        approved_by: None,
        proposal_id: None,
    }
}

fn filter() -> AuditFilter {
    AuditFilter {
        server_id: Some(3),
        session_id: Some("s1".to_string()),
        source: Some("agent".to_string()),
        success: None,
        search: Some("upt".to_string()),
        from: Some("2025".to_string()),
        to: Some("2026".to_string()),
        limit: 10,
        offset: 0,
    }
}

#[test]
fn an_entry_is_completed_once() {
    in_runtime(async {
        let db = open().await;
        let begin = begin_audit_action_at(
            "2025-05-01T00:00:00+00:00",
            Some(3),
            Some("web-1"),
            Some("uptime"),
            &context(),
        );
        let id: i64 = rows(&db, &begin).await[0].try_get("id").unwrap();
        let counts = audit_counts();
        let pending: i64 = rows(&db, &counts.pending).await[0].try_get("c").unwrap();
        assert_eq!(pending, 1);

        let finish = finish_audit_action(id, "succeeded", Some(0), Some("up"), true, 9).unwrap();
        let changed = change(&db, &finish).await;
        assert!(check_finished(id, changed).is_ok());

        let found = rows(&db, &query_audit_logs(&filter())).await;
        assert_eq!(found.len(), 1);
        let outcome: String = found[0].try_get("outcome").unwrap();
        let output: String = found[0].try_get("output").unwrap();
        let exit_code: i32 = found[0].try_get("exit_code").unwrap();
        let success: bool = found[0].try_get("success").unwrap();
        assert_eq!((outcome.as_str(), output.as_str(), exit_code, success), ("succeeded", "up", 0, true));

        let again = finish_audit_action(id, "failed", Some(1), None, false, 9).unwrap();
        let changed = change(&db, &again).await;
        assert!(check_finished(id, changed).is_err());
        // Entries that come in between change nothing about that.
        let other: i64 = rows(&db, &begin).await[0].try_get("id").unwrap();
        assert_ne!(other, id);
        let finish = finish_audit_action(other, "unknown", None, None, false, 1).unwrap();
        assert_eq!(change(&db, &finish).await, 1);
        assert_eq!(change(&db, &again).await, 0);
        let succeeded: i64 = rows(&db, &counts.success).await[0].try_get("c").unwrap();
        let failed: i64 = rows(&db, &counts.failed).await[0].try_get("c").unwrap();
        assert_eq!((succeeded, failed), (1, 0));
    });
}

#[test]
fn listings_honour_their_conditions() {
    in_runtime(async {
        let db = open().await;
        for (time, server, command) in [
            ("2025-05-01", 3, "uptime"),
            ("2025-06-01", 3, "uptime -p"),
            ("2025-06-01", 4, "uptime"),
            ("2027-06-01", 3, "uptime"),
            ("2025-06-01", 3, "df"),
        ] {
            let st =
                begin_audit_action_at(time, Some(server), Some("h"), Some(command), &context());
            rows(&db, &st).await;
        }
        let found = rows(&db, &query_audit_logs(&filter())).await;
        let commands: Vec<String> =
            found.iter().map(|r| r.try_get::<String, _>("command").unwrap()).collect();
        assert_eq!(commands, ["uptime -p", "uptime"]);
        let second = AuditFilter { limit: 1, offset: 1, ..filter() };
        let found = rows(&db, &query_audit_logs(&second)).await;
        assert_eq!(found.len(), 1);
        assert_eq!(found[0].try_get::<String, _>("command").unwrap(), "uptime");
    });
}

fn skill(id: &str, version: i64) -> Skill {
    Skill {
        id: id.to_string(),
        title: format!("title {id}"),
        content: "c".to_string(),
        triggers: None,
        tags: None,
        applies_to: None,
        risk_level: "high".to_string(),
        enabled: true,
        source: "manual".to_string(),
        source_doc_id: None,
        version,
        created_at: String::new(),
        updated_at: String::new(),
    }
}

fn doc(status: &str) -> Doc {
    Doc {
        id: "d1".to_string(),
        doc_type: "runbook".to_string(),
        title: "Outage".to_string(),
        content: "what we did".to_string(),
        session_id: None,
        server_id: None,
        generated_by: None,
        tags: Some("db".to_string()),
        status: status.to_string(),
        created_at: String::new(),
        updated_at: String::new(),
    }
}

#[test]
fn skills_are_stored_toggled_and_deleted() {
    in_runtime(async {
        let db = open().await;
        rows(&db, &upsert_skill(&skill("b", 1))).await;
        rows(&db, &upsert_skill(&skill("a", 1))).await;
        rows(&db, &upsert_skill(&skill("a", 5))).await;
        let all = rows(&db, &list_skills()).await;
        assert_eq!(all.len(), 2);
        assert_eq!(all[0].try_get::<String, _>("id").unwrap(), "a");
        assert_eq!(all[0].try_get::<i64, _>("version").unwrap(), 6);
        rows(&db, &toggle_skill("a", false)).await;
        assert_eq!(rows(&db, &list_enabled_skills()).await.len(), 1);
        rows(&db, &delete_skill("b")).await;
        assert!(rows(&db, &list_enabled_skills()).await.is_empty());
    });
}

async fn listed(db: &SqlitePool, statement: &Statement) -> Vec<(String, bool)> {
    rows(db, statement)
        .await
        .iter()
        .map(|r| (r.try_get("id").unwrap(), r.try_get("enabled").unwrap()))
        .collect()
}

#[test]
fn a_toggled_skill_is_listed_when_enabled() {
    in_runtime(async {
        let db = open().await;
        for id in ["c", "a", "b"] {
            rows(&db, &upsert_skill(&skill(id, 1))).await;
        }
        for (id, enabled) in [("b", false), ("b", false), ("a", false), ("b", true), ("x", true)] {
            let before = listed(&db, &list_skills()).await;
            let changed = change(&db, &toggle_skill(id, enabled)).await;
            assert_eq!(changed, if id == "x" { 0 } else { 1 });
            let expected: Vec<(String, bool)> = before
                .into_iter()
                .map(|(i, on)| if i == id { (i, enabled) } else { (i, on) })
                .collect();
            let all = listed(&db, &list_skills()).await;
            assert_eq!(all, expected);
            let on: Vec<(String, bool)> = all.into_iter().filter(|(_, on)| *on).collect();
            assert_eq!(listed(&db, &list_enabled_skills()).await, on);
        }
    });
}

#[test]
fn a_converted_document_is_a_disabled_skill() {
    in_runtime(async {
        let db = open().await;
        rows(&db, &upsert_doc(&doc("draft"))).await;
        rows(&db, &update_doc_status("d1", "reviewed")).await;
        let docs = rows(&db, &list_docs()).await;
        assert_eq!(docs[0].try_get::<String, _>("status").unwrap(), "reviewed");
        let st = doc_to_skill("d1", "sk", "SOP", Some(doc("reviewed"))).unwrap();
        rows(&db, &st).await;
        rows(&db, &toggle_skill("sk", true)).await;
        rows(&db, &st).await;
        let found = rows(&db, &get_skill("sk")).await;
        assert!(!found[0].try_get::<bool, _>("enabled").unwrap());
        assert_eq!(found[0].try_get::<i64, _>("version").unwrap(), 2);
        assert_eq!(found[0].try_get::<String, _>("source").unwrap(), "from_doc");
        assert_eq!(found[0].try_get::<String, _>("source_doc_id").unwrap(), "d1");
        rows(&db, &delete_doc("d1")).await;
        assert!(rows(&db, &list_docs()).await.is_empty());
    });
}

#[test]
fn a_stored_quick_action_is_found() {
    in_runtime(async {
        let db = open().await;
        let action = QuickAction {
            id: "qa".to_string(),
            name: "Reload".to_string(),
            icon: None,
            target: None,
            steps: "[]".to_string(),
            approval: "ask".to_string(),
            audit: false,
            created_at: String::new(),
            updated_at: String::new(),
        };
        rows(&db, &upsert_quick_action(&action)).await;
        let request = execute_quick_action("qa", 1, "t", false);
        let found = rows(&db, &request.lookup()).await;
        assert_eq!(found.len(), 1);
        assert_eq!(found[0].try_get::<String, _>("approval").unwrap(), "ask");
    });
}

fn column<T>(row: &SqliteRow, name: &str) -> T
where
    T: for<'r> sqlx::Decode<'r, Sqlite> + sqlx::Type<Sqlite>,
{
    row.try_get(name).unwrap()
}

#[test]
fn a_registered_entry_is_pending_and_holds_what_was_given() {
    in_runtime(async {
        let db = open().await;
        let begin = begin_audit_action_at("2025-05-01", Some(3), Some("web-1"), Some("ls"), &context());
        let id: i64 = column(&rows(&db, &begin).await[0], "id");
        let stored = rows(&db, &get_session_audit_logs("s1")).await;
        assert_eq!(stored.len(), 1);
        let row = &stored[0];
        assert_eq!(column::<i64>(row, "id"), id);
        assert_eq!(column::<String>(row, "timestamp"), "2025-05-01");
        assert_eq!(column::<String>(row, "session_id"), "s1");
        assert_eq!(column::<i64>(row, "server_id"), 3);
        assert_eq!(column::<String>(row, "server_host"), "web-1");
        assert_eq!(column::<String>(row, "source"), "agent");
        assert_eq!(column::<String>(row, "tool_name"), "run_command");
        assert_eq!(column::<String>(row, "command"), "ls");
        assert_eq!(column::<Option<String>>(row, "args"), None);
        assert_eq!(column::<Option<i32>>(row, "exit_code"), None);
        assert_eq!(column::<Option<String>>(row, "output"), None);
        assert!(!column::<bool>(row, "success"));
        assert_eq!(column::<String>(row, "outcome"), "pending");
        assert_eq!(column::<i64>(row, "duration_ms"), 0);

        let finish = finish_audit_action(id, "failed", Some(2), Some("no"), false, 8).unwrap();
        assert_eq!(change(&db, &finish).await, 1);
        let row = &rows(&db, &get_session_audit_logs("s1")).await[0];
        assert_eq!(column::<String>(row, "outcome"), "failed");
        assert_eq!(column::<i32>(row, "exit_code"), 2);
        assert_eq!(column::<String>(row, "output"), "no");
        assert_eq!(column::<i64>(row, "duration_ms"), 8);
        assert_eq!(column::<String>(row, "command"), "ls");
        assert_eq!(column::<String>(row, "timestamp"), "2025-05-01");
    });
}

#[test]
fn a_logged_entry_cannot_be_completed() {
    in_runtime(async {
        let db = open().await;
        let log = log_action_at("2025-05-01", None, None, true, Some("done"), &context());
        let id: i64 = column(&rows(&db, &log).await[0], "id");
        let finish = finish_audit_action(id, "failed", None, None, false, 0).unwrap();
        let changed = change(&db, &finish).await;
        assert_eq!(changed, 0);
        assert!(check_finished(id, changed).is_err());
        let row = &rows(&db, &get_session_audit_logs("s1")).await[0];
        assert_eq!(column::<String>(row, "outcome"), "succeeded");
        assert_eq!(column::<String>(row, "output"), "done");
    });
}

async fn commands(db: &SqlitePool, filter: &AuditFilter) -> Vec<String> {
    rows(db, &query_audit_logs(filter)).await.iter().map(|r| column(r, "command")).collect()
}

#[test]
fn pages_of_a_listing_follow_each_other() {
    in_runtime(async {
        let db = open().await;
        for day in [3, 1, 5, 2, 4] {
            let time = format!("2025-06-0{day}");
            let command = format!("uptime {day}");
            let st = begin_audit_action_at(&time, Some(3), Some("h"), Some(&command), &context());
            rows(&db, &st).await;
        }
        let page = |limit: i64, offset: i64| AuditFilter { limit, offset, ..filter() };
        assert_eq!(commands(&db, &page(2, 0)).await, ["uptime 5", "uptime 4"]);
        assert_eq!(commands(&db, &page(2, 2)).await, ["uptime 3", "uptime 2"]);
        assert_eq!(commands(&db, &page(2, 4)).await, ["uptime 1"]);
        assert!(commands(&db, &page(2, 5)).await.is_empty());
        assert_eq!(commands(&db, &page(0, -1)).await, ["uptime 5"]);
        let oldest_first: Vec<String> = rows(&db, &get_session_audit_logs("s1"))
            .await
            .iter()
            .map(|r| column(r, "timestamp"))
            .collect();
        assert_eq!(
            oldest_first,
            ["2025-06-01", "2025-06-02", "2025-06-03", "2025-06-04", "2025-06-05"]
        );
        assert!(rows(&db, &get_session_audit_logs("s2")).await.is_empty());
    });
}

#[test]
fn a_search_finds_what_contains_the_text() {
    in_runtime(async {
        let db = open().await;
        for command in ["systemctl restart NGINX", "cat a_b", "cat axb", "df"] {
            let st = begin_audit_action_at("2025-06-01", Some(3), None, Some(command), &context());
            rows(&db, &st).await;
        }
        let search = |t: &str| AuditFilter { search: Some(t.to_string()), ..filter() };
        assert_eq!(commands(&db, &search("nginx")).await, ["systemctl restart NGINX"]);
        assert_eq!(commands(&db, &search("RESTART")).await, ["systemctl restart NGINX"]);
        assert_eq!(commands(&db, &search("a_b")).await.len(), 2);
        assert_eq!(commands(&db, &search("run_command")).await.len(), 4);
        assert!(commands(&db, &search("apache")).await.is_empty());
    });
}

#[test]
fn counts_by_outcome_add_up() {
    in_runtime(async {
        let db = open().await;
        for outcome in ["succeeded", "failed", "failed", "unknown", "", ""] {
            let begin = begin_audit_action_at("t", None, None, Some("c"), &context());
            let id: i64 = column(&rows(&db, &begin).await[0], "id");
            if !outcome.is_empty() {
                let finish = finish_audit_action(id, outcome, None, None, false, 0).unwrap();
                change(&db, &finish).await;
            }
        }
        let counts = audit_counts();
        let mut read: Vec<Option<i64>> = Vec::new();
        for st in [&counts.total, &counts.success, &counts.failed, &counts.unknown, &counts.pending] {
            read.push(rows(&db, st).await[0].try_get("c").ok());
        }
        let stats = audit_stats(read[0], read[1], read[2], read[3], read[4]);
        assert_eq!((stats.success, stats.failed, stats.unknown, stats.pending), (1, 2, 1, 2));
        assert_eq!(
            stats.total,
            stats.success + stats.failed + stats.unknown + stats.pending
        );
    });
}

#[test]
fn a_conversion_keeps_what_a_known_skill_has_of_its_own() {
    in_runtime(async {
        let db = open().await;
        let own = Skill { triggers: Some("when".to_string()), ..skill("sk", 6) };
        rows(&db, &upsert_skill(&own)).await;
        rows(&db, &upsert_skill(&skill("other", 1))).await;
        rows(&db, &doc_to_skill("d1", "sk", "SOP", Some(doc("reviewed"))).unwrap()).await;
        let found = rows(&db, &get_skill("sk")).await;
        assert_eq!(found.len(), 1);
        let row = &found[0];
        assert_eq!(column::<String>(row, "title"), "SOP");
        assert_eq!(column::<String>(row, "content"), "what we did");
        assert_eq!(column::<String>(row, "tags"), "db");
        assert_eq!(column::<String>(row, "source_doc_id"), "d1");
        assert!(!column::<bool>(row, "enabled"));
        assert_eq!(column::<i64>(row, "version"), 7);
        assert_eq!(column::<String>(row, "triggers"), "when");
        assert_eq!(column::<String>(row, "risk_level"), "high");
        assert_eq!(column::<String>(row, "source"), "manual");
        let row = &rows(&db, &get_skill("other")).await[0];
        assert!(column::<bool>(row, "enabled"));
        assert_eq!(column::<i64>(row, "version"), 1);
        rows(&db, &delete_skill("sk")).await;
        assert!(rows(&db, &get_skill("sk")).await.is_empty());
        assert_eq!(rows(&db, &list_skills()).await.len(), 1);
    });
}

#[test]
fn documents_and_quick_actions_are_found_as_they_were_stored() {
    in_runtime(async {
        let db = open().await;
        rows(&db, &upsert_doc(&doc("draft"))).await;
        rows(&db, &upsert_doc(&Doc { title: "Later".to_string(), ..doc("draft") })).await;
        let found = rows(&db, &get_doc("d1")).await;
        assert_eq!(found.len(), 1);
        assert_eq!(column::<String>(&found[0], "title"), "Later");
        assert_eq!(column::<String>(&found[0], "type"), "runbook");
        assert!(column::<Option<String>>(&found[0], "updated_at").is_some());

        let action = |name: &str| QuickAction {
            id: name.to_lowercase(),
            name: name.to_string(),
            icon: None,
            target: None,
            steps: "[]".to_string(),
            approval: "ask".to_string(),
            audit: true,
            created_at: String::new(),
            updated_at: String::new(),
        };
        rows(&db, &upsert_quick_action(&action("B"))).await;
        rows(&db, &upsert_quick_action(&action("A"))).await;
        let names: Vec<String> = rows(&db, &list_quick_actions())
            .await
            .iter()
            .map(|r| column(r, "name"))
            .collect();
        assert_eq!(names, ["A", "B"]);
        rows(&db, &delete_quick_action("a")).await;
        rows(&db, &delete_quick_action("x")).await;
        assert_eq!(rows(&db, &list_quick_actions()).await.len(), 1);
    });
}

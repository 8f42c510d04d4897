//! The texts of the SQL statements, and how many parameters each of them has.
use vstd::prelude::*;

use crate::sql::{count_upto, placeholders};

verus! {

/// Stores a new audit log entry and returns its id.
pub const INSERT_AUDIT_LOG: &'static str = "INSERT INTO audit_logs
            (timestamp, session_id, server_id, server_host, source, tool_name,
             command, args, exit_code, output, success, outcome, approved_by, proposal_id, duration_ms)
         VALUES (?, ?, ?, ?, ?, ?, ?, ?, ?, ?, ?, ?, ?, ?, ?)
         RETURNING id";

/// Completes an audit log entry that is still pending.
pub const FINISH_AUDIT_LOG: &'static str = "UPDATE audit_logs
         SET outcome=?, exit_code=?, output=?, success=?, duration_ms=?
         WHERE id=? AND outcome='pending'";

/// The entries of one session, oldest first.
pub const SESSION_AUDIT_LOGS: &'static str = "SELECT * FROM audit_logs WHERE session_id = ? ORDER BY timestamp ASC";

/// How many entries there are.
pub const COUNT_AUDIT_LOGS: &'static str = "SELECT COUNT(*) AS c FROM audit_logs";

/// How many entries succeeded.
pub const COUNT_SUCCEEDED: &'static str = "SELECT COUNT(*) AS c FROM audit_logs WHERE outcome = 'succeeded'";

/// How many entries failed.
pub const COUNT_FAILED: &'static str = "SELECT COUNT(*) AS c FROM audit_logs WHERE outcome = 'failed'";

/// How many entries have an unknown outcome.
pub const COUNT_UNKNOWN: &'static str = "SELECT COUNT(*) AS c FROM audit_logs WHERE outcome = 'unknown'";

/// How many entries are still pending.
pub const COUNT_PENDING: &'static str = "SELECT COUNT(*) AS c FROM audit_logs WHERE outcome = 'pending'";

/// All skills by title.
pub const LIST_SKILLS: &'static str = "SELECT * FROM skills ORDER BY title";

/// The enabled skills by title.
pub const LIST_ENABLED_SKILLS: &'static str = "SELECT * FROM skills WHERE enabled = 1 ORDER BY title";

/// One skill.
pub const GET_SKILL: &'static str = "SELECT * FROM skills WHERE id = ?";

/// Stores a skill, replacing the one with the same id.
pub const UPSERT_SKILL: &'static str = "INSERT INTO skills (id, title, content, triggers, tags, applies_to, risk_level,
                             enabled, source, source_doc_id, version)
         VALUES (?, ?, ?, ?, ?, ?, ?, ?, ?, ?, ?)
         ON CONFLICT(id) DO UPDATE SET
            title=excluded.title, content=excluded.content, triggers=excluded.triggers,
            tags=excluded.tags, applies_to=excluded.applies_to, risk_level=excluded.risk_level,
            enabled=excluded.enabled, source=excluded.source, source_doc_id=excluded.source_doc_id,
            version=excluded.version + 1,
            updated_at=strftime('%Y-%m-%dT%H:%M:%fZ','now')";

/// Deletes a skill.
pub const DELETE_SKILL: &'static str = "DELETE FROM skills WHERE id = ?";

/// Enables or disables a skill.
pub const TOGGLE_SKILL: &'static str = "UPDATE skills SET enabled=?, updated_at=strftime('%Y-%m-%dT%H:%M:%fZ','now') WHERE id=?";

/// Stores a disabled skill made from a document, replacing the content of the one with the same id.
pub const CONVERT_DOC: &'static str = "INSERT INTO skills (id, title, content, triggers, tags, applies_to, risk_level,
                             enabled, source, source_doc_id, version)
         VALUES (?, ?, ?, NULL, ?, NULL, 'low', 0, 'from_doc', ?, 1)
         ON CONFLICT(id) DO UPDATE SET
            title=excluded.title, content=excluded.content, tags=excluded.tags,
            source_doc_id=excluded.source_doc_id,
            enabled=0,
            version=skills.version + 1,
            updated_at=strftime('%Y-%m-%dT%H:%M:%fZ','now')";

/// All quick actions by name.
pub const LIST_QUICK_ACTIONS: &'static str = "SELECT * FROM quick_actions ORDER BY name";

/// Stores a quick action, replacing the one with the same id.
pub const UPSERT_QUICK_ACTION: &'static str = "INSERT INTO quick_actions (id, name, icon, target, steps, approval, audit)
         VALUES (?, ?, ?, ?, ?, ?, ?)
         ON CONFLICT(id) DO UPDATE SET
            name=excluded.name, icon=excluded.icon, target=excluded.target,
            steps=excluded.steps, approval=excluded.approval, audit=excluded.audit,
            updated_at=strftime('%Y-%m-%dT%H:%M:%fZ','now')";

/// Deletes a quick action.
pub const DELETE_QUICK_ACTION: &'static str = "DELETE FROM quick_actions WHERE id = ?";

/// One quick action.
pub const GET_QUICK_ACTION: &'static str = "SELECT * FROM quick_actions WHERE id = ?";

/// The host name of a server.
pub const GET_SERVER_HOST: &'static str = "SELECT host FROM servers WHERE id = ?";

/// All documents, newest first.
pub const LIST_DOCS: &'static str = "SELECT * FROM docs ORDER BY datetime(created_at) DESC";

/// One document.
pub const GET_DOC: &'static str = "SELECT * FROM docs WHERE id = ?";

/// Stores a document, replacing the one with the same id.
pub const UPSERT_DOC: &'static str = "INSERT INTO docs (id, type, title, content, session_id, server_id, generated_by,
                           tags, status)
         VALUES (?, ?, ?, ?, ?, ?, ?, ?, ?)
         ON CONFLICT(id) DO UPDATE SET
            type=excluded.type, title=excluded.title, content=excluded.content,
            session_id=excluded.session_id, server_id=excluded.server_id,
            generated_by=excluded.generated_by, tags=excluded.tags, status=excluded.status,
            updated_at=strftime('%Y-%m-%dT%H:%M:%fZ','now')";

/// Changes the status of a document.
pub const UPDATE_DOC_STATUS: &'static str = "UPDATE docs SET status=?, updated_at=strftime('%Y-%m-%dT%H:%M:%fZ','now') WHERE id=?";

/// Deletes a document.
pub const DELETE_DOC: &'static str = "DELETE FROM docs WHERE id = ?";

/// The start of a listing of the audit log.
pub const AUDIT_QUERY_HEAD: &'static str = "SELECT * FROM audit_logs ";

/// The end of a listing of the audit log: newest first, one page.
pub const AUDIT_QUERY_TAIL: &'static str = " ORDER BY timestamp DESC LIMIT ? OFFSET ?";

/// What introduces the conditions of a listing.
pub const WHERE: &'static str = "WHERE ";

/// What stands between two conditions.
pub const AND: &'static str = " AND ";

/// Condition on the server.
pub const SERVER_CLAUSE: &'static str = "server_id = ?";

/// Condition on the session.
pub const SESSION_CLAUSE: &'static str = "session_id = ?";

/// Condition on the source.
pub const SOURCE_CLAUSE: &'static str = "source = ?";

/// Condition on success.
pub const SUCCESS_CLAUSE: &'static str = "success = ?";

/// Condition on the text of an entry.
pub const SEARCH_CLAUSE: &'static str = "(command LIKE ? OR tool_name LIKE ? OR output LIKE ?)";

/// Condition on the earliest time.
pub const FROM_CLAUSE: &'static str = "timestamp >= ?";

/// Condition on the latest time.
pub const TO_CLAUSE: &'static str = "timestamp <= ?";

pub proof fn lemma_insert_audit_log_parameters()
    ensures
        placeholders(INSERT_AUDIT_LOG@) == 15,
{
    reveal_strlit("INSERT INTO audit_logs
            (timestamp, session_id, server_id, server_host, source, tool_name,
             command, args, exit_code, output, success, outcome, approved_by, proposal_id, duration_ms)
         VALUES (?, ?, ?, ?, ?, ?, ?, ?, ?, ?, ?, ?, ?, ?, ?)
         RETURNING id");
    reveal_with_fuel(count_upto, 32);
    assert(count_upto(INSERT_AUDIT_LOG@, '?', 30) == 0);
    assert(count_upto(INSERT_AUDIT_LOG@, '?', 60) == 0);
    assert(count_upto(INSERT_AUDIT_LOG@, '?', 90) == 0);
    assert(count_upto(INSERT_AUDIT_LOG@, '?', 120) == 0);
    assert(count_upto(INSERT_AUDIT_LOG@, '?', 150) == 0);
    assert(count_upto(INSERT_AUDIT_LOG@, '?', 180) == 0);
    assert(count_upto(INSERT_AUDIT_LOG@, '?', 210) == 0);
    assert(count_upto(INSERT_AUDIT_LOG@, '?', 240) == 6);
    assert(count_upto(INSERT_AUDIT_LOG@, '?', 270) == 15);
}

pub proof fn lemma_finish_audit_log_parameters()
    ensures
        placeholders(FINISH_AUDIT_LOG@) == 6,
{
    reveal_strlit("UPDATE audit_logs
         SET outcome=?, exit_code=?, output=?, success=?, duration_ms=?
         WHERE id=? AND outcome='pending'");
    reveal_with_fuel(count_upto, 32);
    assert(count_upto(FINISH_AUDIT_LOG@, '?', 30) == 0);
    assert(count_upto(FINISH_AUDIT_LOG@, '?', 60) == 2);
    assert(count_upto(FINISH_AUDIT_LOG@, '?', 90) == 5);
    assert(count_upto(FINISH_AUDIT_LOG@, '?', 120) == 6);
}

pub proof fn lemma_session_audit_logs_parameters()
    ensures
        placeholders(SESSION_AUDIT_LOGS@) == 1,
{
    reveal_strlit("SELECT * FROM audit_logs WHERE session_id = ? ORDER BY timestamp ASC");
    reveal_with_fuel(count_upto, 32);
    assert(count_upto(SESSION_AUDIT_LOGS@, '?', 30) == 0);
    assert(count_upto(SESSION_AUDIT_LOGS@, '?', 60) == 1);
}

pub proof fn lemma_count_audit_logs_parameters()
    ensures
        placeholders(COUNT_AUDIT_LOGS@) == 0,
{
    reveal_strlit("SELECT COUNT(*) AS c FROM audit_logs");
    reveal_with_fuel(count_upto, 32);
    assert(count_upto(COUNT_AUDIT_LOGS@, '?', 30) == 0);
}

pub proof fn lemma_count_succeeded_parameters()
    ensures
        placeholders(COUNT_SUCCEEDED@) == 0,
{
    reveal_strlit("SELECT COUNT(*) AS c FROM audit_logs WHERE outcome = 'succeeded'");
    reveal_with_fuel(count_upto, 32);
    assert(count_upto(COUNT_SUCCEEDED@, '?', 30) == 0);
    assert(count_upto(COUNT_SUCCEEDED@, '?', 60) == 0);
}

pub proof fn lemma_count_failed_parameters()
    ensures
        placeholders(COUNT_FAILED@) == 0,
{
    reveal_strlit("SELECT COUNT(*) AS c FROM audit_logs WHERE outcome = 'failed'");
    reveal_with_fuel(count_upto, 32);
    assert(count_upto(COUNT_FAILED@, '?', 30) == 0);
    assert(count_upto(COUNT_FAILED@, '?', 60) == 0);
}

pub proof fn lemma_count_unknown_parameters()
    ensures
        placeholders(COUNT_UNKNOWN@) == 0,
{
    reveal_strlit("SELECT COUNT(*) AS c FROM audit_logs WHERE outcome = 'unknown'");
    reveal_with_fuel(count_upto, 32);
    assert(count_upto(COUNT_UNKNOWN@, '?', 30) == 0);
    assert(count_upto(COUNT_UNKNOWN@, '?', 60) == 0);
}

pub proof fn lemma_count_pending_parameters()
    ensures
        placeholders(COUNT_PENDING@) == 0,
{
    reveal_strlit("SELECT COUNT(*) AS c FROM audit_logs WHERE outcome = 'pending'");
    reveal_with_fuel(count_upto, 32);
    assert(count_upto(COUNT_PENDING@, '?', 30) == 0);
    assert(count_upto(COUNT_PENDING@, '?', 60) == 0);
}

pub proof fn lemma_list_skills_parameters()
    ensures
        placeholders(LIST_SKILLS@) == 0,
{
    reveal_strlit("SELECT * FROM skills ORDER BY title");
    reveal_with_fuel(count_upto, 32);
    assert(count_upto(LIST_SKILLS@, '?', 30) == 0);
}

pub proof fn lemma_list_enabled_skills_parameters()
    ensures
        placeholders(LIST_ENABLED_SKILLS@) == 0,
{
    reveal_strlit("SELECT * FROM skills WHERE enabled = 1 ORDER BY title");
    reveal_with_fuel(count_upto, 32);
    assert(count_upto(LIST_ENABLED_SKILLS@, '?', 30) == 0);
}

pub proof fn lemma_get_skill_parameters()
    ensures
        placeholders(GET_SKILL@) == 1,
{
    reveal_strlit("SELECT * FROM skills WHERE id = ?");
    reveal_with_fuel(count_upto, 32);
    assert(count_upto(GET_SKILL@, '?', 30) == 0);
}

pub proof fn lemma_upsert_skill_parameters()
    ensures
        placeholders(UPSERT_SKILL@) == 11,
{
    reveal_strlit("INSERT INTO skills (id, title, content, triggers, tags, applies_to, risk_level,
                             enabled, source, source_doc_id, version)
         VALUES (?, ?, ?, ?, ?, ?, ?, ?, ?, ?, ?)
         ON CONFLICT(id) DO UPDATE SET
            title=excluded.title, content=excluded.content, triggers=excluded.triggers,
            tags=excluded.tags, applies_to=excluded.applies_to, risk_level=excluded.risk_level,
            enabled=excluded.enabled, source=excluded.source, source_doc_id=excluded.source_doc_id,
            version=excluded.version + 1,
            updated_at=strftime('%Y-%m-%dT%H:%M:%fZ','now')");
    reveal_with_fuel(count_upto, 32);
    assert(count_upto(UPSERT_SKILL@, '?', 30) == 0);
    assert(count_upto(UPSERT_SKILL@, '?', 60) == 0);
    assert(count_upto(UPSERT_SKILL@, '?', 90) == 0);
    assert(count_upto(UPSERT_SKILL@, '?', 120) == 0);
    assert(count_upto(UPSERT_SKILL@, '?', 150) == 0);
    assert(count_upto(UPSERT_SKILL@, '?', 180) == 5);
    assert(count_upto(UPSERT_SKILL@, '?', 210) == 11);
    assert(count_upto(UPSERT_SKILL@, '?', 240) == 11);
    assert(count_upto(UPSERT_SKILL@, '?', 270) == 11);
    assert(count_upto(UPSERT_SKILL@, '?', 300) == 11);
    assert(count_upto(UPSERT_SKILL@, '?', 330) == 11);
    assert(count_upto(UPSERT_SKILL@, '?', 360) == 11);
    assert(count_upto(UPSERT_SKILL@, '?', 390) == 11);
    assert(count_upto(UPSERT_SKILL@, '?', 420) == 11);
    assert(count_upto(UPSERT_SKILL@, '?', 450) == 11);
    assert(count_upto(UPSERT_SKILL@, '?', 480) == 11);
    assert(count_upto(UPSERT_SKILL@, '?', 510) == 11);
    assert(count_upto(UPSERT_SKILL@, '?', 540) == 11);
    assert(count_upto(UPSERT_SKILL@, '?', 570) == 11);
    assert(count_upto(UPSERT_SKILL@, '?', 600) == 11);
}

pub proof fn lemma_delete_skill_parameters()
    ensures
        placeholders(DELETE_SKILL@) == 1,
{
    reveal_strlit("DELETE FROM skills WHERE id = ?");
    reveal_with_fuel(count_upto, 32);
    assert(count_upto(DELETE_SKILL@, '?', 30) == 0);
}

pub proof fn lemma_toggle_skill_parameters()
    ensures
        placeholders(TOGGLE_SKILL@) == 2,
{
    reveal_strlit("UPDATE skills SET enabled=?, updated_at=strftime('%Y-%m-%dT%H:%M:%fZ','now') WHERE id=?");
    reveal_with_fuel(count_upto, 32);
    assert(count_upto(TOGGLE_SKILL@, '?', 30) == 1);
    assert(count_upto(TOGGLE_SKILL@, '?', 60) == 1);
}

pub proof fn lemma_convert_doc_parameters()
    ensures
        placeholders(CONVERT_DOC@) == 5,
{
    reveal_strlit("INSERT INTO skills (id, title, content, triggers, tags, applies_to, risk_level,
                             enabled, source, source_doc_id, version)
         VALUES (?, ?, ?, NULL, ?, NULL, 'low', 0, 'from_doc', ?, 1)
         ON CONFLICT(id) DO UPDATE SET
            title=excluded.title, content=excluded.content, tags=excluded.tags,
            source_doc_id=excluded.source_doc_id,
            enabled=0,
            version=skills.version + 1,
            updated_at=strftime('%Y-%m-%dT%H:%M:%fZ','now')");
    reveal_with_fuel(count_upto, 32);
    assert(count_upto(CONVERT_DOC@, '?', 30) == 0);
    assert(count_upto(CONVERT_DOC@, '?', 60) == 0);
    assert(count_upto(CONVERT_DOC@, '?', 90) == 0);
    assert(count_upto(CONVERT_DOC@, '?', 120) == 0);
    assert(count_upto(CONVERT_DOC@, '?', 150) == 0);
    assert(count_upto(CONVERT_DOC@, '?', 180) == 3);
    assert(count_upto(CONVERT_DOC@, '?', 210) == 4);
    assert(count_upto(CONVERT_DOC@, '?', 240) == 5);
    assert(count_upto(CONVERT_DOC@, '?', 270) == 5);
    assert(count_upto(CONVERT_DOC@, '?', 300) == 5);
    assert(count_upto(CONVERT_DOC@, '?', 330) == 5);
    assert(count_upto(CONVERT_DOC@, '?', 360) == 5);
    assert(count_upto(CONVERT_DOC@, '?', 390) == 5);
    assert(count_upto(CONVERT_DOC@, '?', 420) == 5);
    assert(count_upto(CONVERT_DOC@, '?', 450) == 5);
    assert(count_upto(CONVERT_DOC@, '?', 480) == 5);
}

pub proof fn lemma_list_quick_actions_parameters()
    ensures
        placeholders(LIST_QUICK_ACTIONS@) == 0,
{
    reveal_strlit("SELECT * FROM quick_actions ORDER BY name");
    reveal_with_fuel(count_upto, 32);
    assert(count_upto(LIST_QUICK_ACTIONS@, '?', 30) == 0);
}

pub proof fn lemma_upsert_quick_action_parameters()
    ensures
        placeholders(UPSERT_QUICK_ACTION@) == 7,
{
    reveal_strlit("INSERT INTO quick_actions (id, name, icon, target, steps, approval, audit)
         VALUES (?, ?, ?, ?, ?, ?, ?)
         ON CONFLICT(id) DO UPDATE SET
            name=excluded.name, icon=excluded.icon, target=excluded.target,
            steps=excluded.steps, approval=excluded.approval, audit=excluded.audit,
            updated_at=strftime('%Y-%m-%dT%H:%M:%fZ','now')");
    reveal_with_fuel(count_upto, 32);
    assert(count_upto(UPSERT_QUICK_ACTION@, '?', 30) == 0);
    assert(count_upto(UPSERT_QUICK_ACTION@, '?', 60) == 0);
    assert(count_upto(UPSERT_QUICK_ACTION@, '?', 90) == 0);
    assert(count_upto(UPSERT_QUICK_ACTION@, '?', 120) == 7);
    assert(count_upto(UPSERT_QUICK_ACTION@, '?', 150) == 7);
    assert(count_upto(UPSERT_QUICK_ACTION@, '?', 180) == 7);
    assert(count_upto(UPSERT_QUICK_ACTION@, '?', 210) == 7);
    assert(count_upto(UPSERT_QUICK_ACTION@, '?', 240) == 7);
    assert(count_upto(UPSERT_QUICK_ACTION@, '?', 270) == 7);
    assert(count_upto(UPSERT_QUICK_ACTION@, '?', 300) == 7);
    assert(count_upto(UPSERT_QUICK_ACTION@, '?', 330) == 7);
    assert(count_upto(UPSERT_QUICK_ACTION@, '?', 360) == 7);
}

pub proof fn lemma_delete_quick_action_parameters()
    ensures
        placeholders(DELETE_QUICK_ACTION@) == 1,
{
    reveal_strlit("DELETE FROM quick_actions WHERE id = ?");
    reveal_with_fuel(count_upto, 32);
    assert(count_upto(DELETE_QUICK_ACTION@, '?', 30) == 0);
}

pub proof fn lemma_get_quick_action_parameters()
    ensures
        placeholders(GET_QUICK_ACTION@) == 1,
{
    reveal_strlit("SELECT * FROM quick_actions WHERE id = ?");
    reveal_with_fuel(count_upto, 32);
    assert(count_upto(GET_QUICK_ACTION@, '?', 30) == 0);
}

pub proof fn lemma_get_server_host_parameters()
    ensures
        placeholders(GET_SERVER_HOST@) == 1,
{
    reveal_strlit("SELECT host FROM servers WHERE id = ?");
    reveal_with_fuel(count_upto, 32);
    assert(count_upto(GET_SERVER_HOST@, '?', 30) == 0);
}

pub proof fn lemma_list_docs_parameters()
    ensures
        placeholders(LIST_DOCS@) == 0,
{
    reveal_strlit("SELECT * FROM docs ORDER BY datetime(created_at) DESC");
    reveal_with_fuel(count_upto, 32);
    assert(count_upto(LIST_DOCS@, '?', 30) == 0);
}

pub proof fn lemma_get_doc_parameters()
    ensures
        placeholders(GET_DOC@) == 1,
{
    reveal_strlit("SELECT * FROM docs WHERE id = ?");
    reveal_with_fuel(count_upto, 32);
    assert(count_upto(GET_DOC@, '?', 30) == 0);
}

pub proof fn lemma_upsert_doc_parameters()
    ensures
        placeholders(UPSERT_DOC@) == 9,
{
    reveal_strlit("INSERT INTO docs (id, type, title, content, session_id, server_id, generated_by,
                           tags, status)
         VALUES (?, ?, ?, ?, ?, ?, ?, ?, ?)
         ON CONFLICT(id) DO UPDATE SET
            type=excluded.type, title=excluded.title, content=excluded.content,
            session_id=excluded.session_id, server_id=excluded.server_id,
            generated_by=excluded.generated_by, tags=excluded.tags, status=excluded.status,
            updated_at=strftime('%Y-%m-%dT%H:%M:%fZ','now')");
    reveal_with_fuel(count_upto, 32);
    assert(count_upto(UPSERT_DOC@, '?', 30) == 0);
    assert(count_upto(UPSERT_DOC@, '?', 60) == 0);
    assert(count_upto(UPSERT_DOC@, '?', 90) == 0);
    assert(count_upto(UPSERT_DOC@, '?', 120) == 0);
    assert(count_upto(UPSERT_DOC@, '?', 150) == 4);
    assert(count_upto(UPSERT_DOC@, '?', 180) == 9);
    assert(count_upto(UPSERT_DOC@, '?', 210) == 9);
    assert(count_upto(UPSERT_DOC@, '?', 240) == 9);
    assert(count_upto(UPSERT_DOC@, '?', 270) == 9);
    assert(count_upto(UPSERT_DOC@, '?', 300) == 9);
    assert(count_upto(UPSERT_DOC@, '?', 330) == 9);
    assert(count_upto(UPSERT_DOC@, '?', 360) == 9);
    assert(count_upto(UPSERT_DOC@, '?', 390) == 9);
    assert(count_upto(UPSERT_DOC@, '?', 420) == 9);
    assert(count_upto(UPSERT_DOC@, '?', 450) == 9);
    assert(count_upto(UPSERT_DOC@, '?', 480) == 9);
}

pub proof fn lemma_update_doc_status_parameters()
    ensures
        placeholders(UPDATE_DOC_STATUS@) == 2,
{
    reveal_strlit("UPDATE docs SET status=?, updated_at=strftime('%Y-%m-%dT%H:%M:%fZ','now') WHERE id=?");
    reveal_with_fuel(count_upto, 32);
    assert(count_upto(UPDATE_DOC_STATUS@, '?', 30) == 1);
    assert(count_upto(UPDATE_DOC_STATUS@, '?', 60) == 1);
}

pub proof fn lemma_delete_doc_parameters()
    ensures
        placeholders(DELETE_DOC@) == 1,
{
    reveal_strlit("DELETE FROM docs WHERE id = ?");
    reveal_with_fuel(count_upto, 31);
}

pub proof fn lemma_audit_query_head_parameters()
    ensures
        placeholders(AUDIT_QUERY_HEAD@) == 0,
{
    reveal_strlit("SELECT * FROM audit_logs ");
    reveal_with_fuel(count_upto, 27);
}

pub proof fn lemma_audit_query_tail_parameters()
    ensures
        placeholders(AUDIT_QUERY_TAIL@) == 2,
{
    reveal_strlit(" ORDER BY timestamp DESC LIMIT ? OFFSET ?");
    reveal_with_fuel(count_upto, 32);
    assert(count_upto(AUDIT_QUERY_TAIL@, '?', 30) == 0);
}

pub proof fn lemma_where_parameters()
    ensures
        placeholders(WHERE@) == 0,
{
    reveal_strlit("WHERE ");
    reveal_with_fuel(count_upto, 8);
}

pub proof fn lemma_and_parameters()
    ensures
        placeholders(AND@) == 0,
{
    reveal_strlit(" AND ");
    reveal_with_fuel(count_upto, 7);
}

pub proof fn lemma_server_clause_parameters()
    ensures
        placeholders(SERVER_CLAUSE@) == 1,
{
    reveal_strlit("server_id = ?");
    reveal_with_fuel(count_upto, 15);
}

pub proof fn lemma_session_clause_parameters()
    ensures
        placeholders(SESSION_CLAUSE@) == 1,
{
    reveal_strlit("session_id = ?");
    reveal_with_fuel(count_upto, 16);
}

pub proof fn lemma_source_clause_parameters()
    ensures
        placeholders(SOURCE_CLAUSE@) == 1,
{
    reveal_strlit("source = ?");
    reveal_with_fuel(count_upto, 12);
}

pub proof fn lemma_success_clause_parameters()
    ensures
        placeholders(SUCCESS_CLAUSE@) == 1,
{
    reveal_strlit("success = ?");
    reveal_with_fuel(count_upto, 13);
}

pub proof fn lemma_search_clause_parameters()
    ensures
        placeholders(SEARCH_CLAUSE@) == 3,
{
    reveal_strlit("(command LIKE ? OR tool_name LIKE ? OR output LIKE ?)");
    reveal_with_fuel(count_upto, 32);
    assert(count_upto(SEARCH_CLAUSE@, '?', 30) == 1);
}

pub proof fn lemma_from_clause_parameters()
    ensures
        placeholders(FROM_CLAUSE@) == 1,
{
    reveal_strlit("timestamp >= ?");
    reveal_with_fuel(count_upto, 16);
}

pub proof fn lemma_to_clause_parameters()
    ensures
        placeholders(TO_CLAUSE@) == 1,
{
    reveal_strlit("timestamp <= ?");
    reveal_with_fuel(count_upto, 16);
}

} // verus!

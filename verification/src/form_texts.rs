//! The texts of the SQL statements are those of their forms.
use vstd::prelude::*;

use crate::decimal::decimal;
use crate::forms::{
    conversion_upsert, doc_columns, doc_upsert, docs_select, enabled_skills_select, entry_columns,
    entry_count, entry_insert, finish_update, id_delete, id_select, outcome_count,
    quick_action_columns, quick_action_upsert, quick_actions_select, session_select, skill_columns,
    skill_upsert, skills_select, status_update, toggle_update,
};
use crate::queries::{
    CONVERT_DOC, COUNT_AUDIT_LOGS, COUNT_FAILED, COUNT_PENDING, COUNT_SUCCEEDED, COUNT_UNKNOWN,
    DELETE_DOC, DELETE_QUICK_ACTION, DELETE_SKILL, FINISH_AUDIT_LOG, GET_DOC, GET_QUICK_ACTION,
    GET_SERVER_HOST, GET_SKILL, INSERT_AUDIT_LOG, LIST_DOCS, LIST_ENABLED_SKILLS,
    LIST_QUICK_ACTIONS, LIST_SKILLS, SESSION_AUDIT_LOGS, TOGGLE_SKILL, UPDATE_DOC_STATUS,
    UPSERT_DOC, UPSERT_QUICK_ACTION, UPSERT_SKILL,
};
use crate::tables::{
    between, columns_of, expr_texts, led, led_upto, lemma_led, merge_texts, term_texts,
};

verus! {

/// One of the lists in the text of `FINISH_AUDIT_LOG`.
proof fn lemma_finish_update_assignments()
    ensures
        FINISH_AUDIT_LOG@.len() >= 89,
        FINISH_AUDIT_LOG@.subrange(31, 89) == led(between(", "@,
            term_texts(finish_update().assignments, "="@).len()),
            term_texts(finish_update().assignments, "="@)),
{
    let s = FINISH_AUDIT_LOG@;
    reveal_strlit("UPDATE audit_logs
         SET outcome=?, exit_code=?, output=?, success=?, duration_ms=?
         WHERE id=? AND outcome='pending'");
    reveal_strlit(", ");
    reveal_strlit("=");
    reveal_strlit("?");
    reveal_strlit("duration_ms");
    reveal_strlit("exit_code");
    reveal_strlit("outcome");
    reveal_strlit("output");
    reveal_strlit("success");
    let list_leads = between(", "@, term_texts(finish_update().assignments, "="@).len());
    let list_parts = term_texts(finish_update().assignments, "="@);
    assert(s.subrange(31, 31) =~= led_upto(list_leads, list_parts, 0));
    assert(s.subrange(31, 40) =~= Seq::<char>::empty() + ("outcome"@ + "="@ + "?"@));
    lemma_led(s, list_leads, list_parts, 0, 31, 31, 40);
    assert(s.subrange(40, 53) =~= ", "@ + ("exit_code"@ + "="@ + "?"@));
    lemma_led(s, list_leads, list_parts, 1, 31, 40, 53);
    assert(s.subrange(53, 63) =~= ", "@ + ("output"@ + "="@ + "?"@));
    lemma_led(s, list_leads, list_parts, 2, 31, 53, 63);
    assert(s.subrange(63, 74) =~= ", "@ + ("success"@ + "="@ + "?"@));
    lemma_led(s, list_leads, list_parts, 3, 31, 63, 74);
    assert(s.subrange(74, 89) =~= ", "@ + ("duration_ms"@ + "="@ + "?"@));
    lemma_led(s, list_leads, list_parts, 4, 31, 74, 89);
}

/// One of the lists in the text of `INSERT_AUDIT_LOG`.
proof fn lemma_entry_insert_columns()
    ensures
        INSERT_AUDIT_LOG@.len() >= 204,
        INSERT_AUDIT_LOG@.subrange(36, 204) == led(entry_insert().leads,
            columns_of(entry_insert().terms)),
{
    let s = INSERT_AUDIT_LOG@;
    reveal_strlit("INSERT INTO audit_logs
            (timestamp, session_id, server_id, server_host, source, tool_name,
             command, args, exit_code, output, success, outcome, approved_by, proposal_id, duration_ms)
         VALUES (?, ?, ?, ?, ?, ?, ?, ?, ?, ?, ?, ?, ?, ?, ?)
         RETURNING id");
    reveal_strlit(",\n             ");
    reveal_strlit(", ");
    reveal_strlit("approved_by");
    reveal_strlit("args");
    reveal_strlit("command");
    reveal_strlit("duration_ms");
    reveal_strlit("exit_code");
    reveal_strlit("outcome");
    reveal_strlit("output");
    reveal_strlit("proposal_id");
    reveal_strlit("server_host");
    reveal_strlit("server_id");
    reveal_strlit("session_id");
    reveal_strlit("source");
    reveal_strlit("success");
    reveal_strlit("timestamp");
    reveal_strlit("tool_name");
    let list_leads = entry_insert().leads;
    let list_parts = columns_of(entry_insert().terms);
    assert(s.subrange(36, 36) =~= led_upto(list_leads, list_parts, 0));
    assert(s.subrange(36, 45) =~= Seq::<char>::empty() + "timestamp"@);
    lemma_led(s, list_leads, list_parts, 0, 36, 36, 45);
    assert(s.subrange(45, 57) =~= ", "@ + "session_id"@);
    lemma_led(s, list_leads, list_parts, 1, 36, 45, 57);
    assert(s.subrange(57, 68) =~= ", "@ + "server_id"@);
    lemma_led(s, list_leads, list_parts, 2, 36, 57, 68);
    assert(s.subrange(68, 81) =~= ", "@ + "server_host"@);
    lemma_led(s, list_leads, list_parts, 3, 36, 68, 81);
    assert(s.subrange(81, 89) =~= ", "@ + "source"@);
    lemma_led(s, list_leads, list_parts, 4, 36, 81, 89);
    assert(s.subrange(89, 100) =~= ", "@ + "tool_name"@);
    lemma_led(s, list_leads, list_parts, 5, 36, 89, 100);
    assert(s.subrange(100, 122) =~= ",\n             "@ + "command"@);
    lemma_led(s, list_leads, list_parts, 6, 36, 100, 122);
    assert(s.subrange(122, 128) =~= ", "@ + "args"@);
    lemma_led(s, list_leads, list_parts, 7, 36, 122, 128);
    assert(s.subrange(128, 139) =~= ", "@ + "exit_code"@);
    lemma_led(s, list_leads, list_parts, 8, 36, 128, 139);
    assert(s.subrange(139, 147) =~= ", "@ + "output"@);
    lemma_led(s, list_leads, list_parts, 9, 36, 139, 147);
    assert(s.subrange(147, 156) =~= ", "@ + "success"@);
    lemma_led(s, list_leads, list_parts, 10, 36, 147, 156);
    assert(s.subrange(156, 165) =~= ", "@ + "outcome"@);
    lemma_led(s, list_leads, list_parts, 11, 36, 156, 165);
    assert(s.subrange(165, 178) =~= ", "@ + "approved_by"@);
    lemma_led(s, list_leads, list_parts, 12, 36, 165, 178);
    assert(s.subrange(178, 191) =~= ", "@ + "proposal_id"@);
    lemma_led(s, list_leads, list_parts, 13, 36, 178, 191);
    assert(s.subrange(191, 204) =~= ", "@ + "duration_ms"@);
    lemma_led(s, list_leads, list_parts, 14, 36, 191, 204);
}

/// One of the lists in the text of `INSERT_AUDIT_LOG`.
proof fn lemma_entry_insert_values()
    ensures
        INSERT_AUDIT_LOG@.len() >= 266,
        INSERT_AUDIT_LOG@.subrange(223, 266) == led(between(", "@,
            expr_texts(entry_insert().terms).len()), expr_texts(entry_insert().terms)),
{
    let s = INSERT_AUDIT_LOG@;
    reveal_strlit("INSERT INTO audit_logs
            (timestamp, session_id, server_id, server_host, source, tool_name,
             command, args, exit_code, output, success, outcome, approved_by, proposal_id, duration_ms)
         VALUES (?, ?, ?, ?, ?, ?, ?, ?, ?, ?, ?, ?, ?, ?, ?)
         RETURNING id");
    reveal_strlit(", ");
    reveal_strlit("?");
    let list_leads = between(", "@, expr_texts(entry_insert().terms).len());
    let list_parts = expr_texts(entry_insert().terms);
    assert(s.subrange(223, 223) =~= led_upto(list_leads, list_parts, 0));
    assert(s.subrange(223, 224) =~= Seq::<char>::empty() + "?"@);
    lemma_led(s, list_leads, list_parts, 0, 223, 223, 224);
    assert(s.subrange(224, 227) =~= ", "@ + "?"@);
    lemma_led(s, list_leads, list_parts, 1, 223, 224, 227);
    assert(s.subrange(227, 230) =~= ", "@ + "?"@);
    lemma_led(s, list_leads, list_parts, 2, 223, 227, 230);
    assert(s.subrange(230, 233) =~= ", "@ + "?"@);
    lemma_led(s, list_leads, list_parts, 3, 223, 230, 233);
    assert(s.subrange(233, 236) =~= ", "@ + "?"@);
    lemma_led(s, list_leads, list_parts, 4, 223, 233, 236);
    assert(s.subrange(236, 239) =~= ", "@ + "?"@);
    lemma_led(s, list_leads, list_parts, 5, 223, 236, 239);
    assert(s.subrange(239, 242) =~= ", "@ + "?"@);
    lemma_led(s, list_leads, list_parts, 6, 223, 239, 242);
    assert(s.subrange(242, 245) =~= ", "@ + "?"@);
    lemma_led(s, list_leads, list_parts, 7, 223, 242, 245);
    assert(s.subrange(245, 248) =~= ", "@ + "?"@);
    lemma_led(s, list_leads, list_parts, 8, 223, 245, 248);
    assert(s.subrange(248, 251) =~= ", "@ + "?"@);
    lemma_led(s, list_leads, list_parts, 9, 223, 248, 251);
    assert(s.subrange(251, 254) =~= ", "@ + "?"@);
    lemma_led(s, list_leads, list_parts, 10, 223, 251, 254);
    assert(s.subrange(254, 257) =~= ", "@ + "?"@);
    lemma_led(s, list_leads, list_parts, 11, 223, 254, 257);
    assert(s.subrange(257, 260) =~= ", "@ + "?"@);
    lemma_led(s, list_leads, list_parts, 12, 223, 257, 260);
    assert(s.subrange(260, 263) =~= ", "@ + "?"@);
    lemma_led(s, list_leads, list_parts, 13, 223, 260, 263);
    assert(s.subrange(263, 266) =~= ", "@ + "?"@);
    lemma_led(s, list_leads, list_parts, 14, 223, 263, 266);
}

/// One of the lists in the text of `UPSERT_SKILL`.
proof fn lemma_skill_upsert_columns()
    ensures
        UPSERT_SKILL@.len() >= 148,
        UPSERT_SKILL@.subrange(20, 148) == led(skill_upsert().insert.leads,
            columns_of(skill_upsert().insert.terms)),
{
    let s = UPSERT_SKILL@;
    reveal_strlit("INSERT INTO skills (id, title, content, triggers, tags, applies_to, risk_level,
                             enabled, source, source_doc_id, version)
         VALUES (?, ?, ?, ?, ?, ?, ?, ?, ?, ?, ?)
         ON CONFLICT(id) DO UPDATE SET
            title=excluded.title, content=excluded.content, triggers=excluded.triggers,
            tags=excluded.tags, applies_to=excluded.applies_to, risk_level=excluded.risk_level,
            enabled=excluded.enabled, source=excluded.source, source_doc_id=excluded.source_doc_id,
            version=excluded.version + 1,
            updated_at=strftime('%Y-%m-%dT%H:%M:%fZ','now')");
    reveal_strlit(",\n                             ");
    reveal_strlit(", ");
    reveal_strlit("applies_to");
    reveal_strlit("content");
    reveal_strlit("enabled");
    reveal_strlit("id");
    reveal_strlit("risk_level");
    reveal_strlit("source");
    reveal_strlit("source_doc_id");
    reveal_strlit("tags");
    reveal_strlit("title");
    reveal_strlit("triggers");
    reveal_strlit("version");
    let list_leads = skill_upsert().insert.leads;
    let list_parts = columns_of(skill_upsert().insert.terms);
    assert(s.subrange(20, 20) =~= led_upto(list_leads, list_parts, 0));
    assert(s.subrange(20, 22) =~= Seq::<char>::empty() + "id"@);
    lemma_led(s, list_leads, list_parts, 0, 20, 20, 22);
    assert(s.subrange(22, 29) =~= ", "@ + "title"@);
    lemma_led(s, list_leads, list_parts, 1, 20, 22, 29);
    assert(s.subrange(29, 38) =~= ", "@ + "content"@);
    lemma_led(s, list_leads, list_parts, 2, 20, 29, 38);
    assert(s.subrange(38, 48) =~= ", "@ + "triggers"@);
    lemma_led(s, list_leads, list_parts, 3, 20, 38, 48);
    assert(s.subrange(48, 54) =~= ", "@ + "tags"@);
    lemma_led(s, list_leads, list_parts, 4, 20, 48, 54);
    assert(s.subrange(54, 66) =~= ", "@ + "applies_to"@);
    lemma_led(s, list_leads, list_parts, 5, 20, 54, 66);
    assert(s.subrange(66, 78) =~= ", "@ + "risk_level"@);
    lemma_led(s, list_leads, list_parts, 6, 20, 66, 78);
    assert(s.subrange(78, 116) =~= ",\n                             "@ + "enabled"@);
    lemma_led(s, list_leads, list_parts, 7, 20, 78, 116);
    assert(s.subrange(116, 124) =~= ", "@ + "source"@);
    lemma_led(s, list_leads, list_parts, 8, 20, 116, 124);
    assert(s.subrange(124, 139) =~= ", "@ + "source_doc_id"@);
    lemma_led(s, list_leads, list_parts, 9, 20, 124, 139);
    assert(s.subrange(139, 148) =~= ", "@ + "version"@);
    lemma_led(s, list_leads, list_parts, 10, 20, 139, 148);
}

/// One of the lists in the text of `UPSERT_SKILL`.
proof fn lemma_skill_upsert_values()
    ensures
        UPSERT_SKILL@.len() >= 198,
        UPSERT_SKILL@.subrange(167, 198) == led(between(", "@,
            expr_texts(skill_upsert().insert.terms).len()),
            expr_texts(skill_upsert().insert.terms)),
{
    let s = UPSERT_SKILL@;
    reveal_strlit("INSERT INTO skills (id, title, content, triggers, tags, applies_to, risk_level,
                             enabled, source, source_doc_id, version)
         VALUES (?, ?, ?, ?, ?, ?, ?, ?, ?, ?, ?)
         ON CONFLICT(id) DO UPDATE SET
            title=excluded.title, content=excluded.content, triggers=excluded.triggers,
            tags=excluded.tags, applies_to=excluded.applies_to, risk_level=excluded.risk_level,
            enabled=excluded.enabled, source=excluded.source, source_doc_id=excluded.source_doc_id,
            version=excluded.version + 1,
            updated_at=strftime('%Y-%m-%dT%H:%M:%fZ','now')");
    reveal_strlit(", ");
    reveal_strlit("?");
    let list_leads = between(", "@, expr_texts(skill_upsert().insert.terms).len());
    let list_parts = expr_texts(skill_upsert().insert.terms);
    assert(s.subrange(167, 167) =~= led_upto(list_leads, list_parts, 0));
    assert(s.subrange(167, 168) =~= Seq::<char>::empty() + "?"@);
    lemma_led(s, list_leads, list_parts, 0, 167, 167, 168);
    assert(s.subrange(168, 171) =~= ", "@ + "?"@);
    lemma_led(s, list_leads, list_parts, 1, 167, 168, 171);
    assert(s.subrange(171, 174) =~= ", "@ + "?"@);
    lemma_led(s, list_leads, list_parts, 2, 167, 171, 174);
    assert(s.subrange(174, 177) =~= ", "@ + "?"@);
    lemma_led(s, list_leads, list_parts, 3, 167, 174, 177);
    assert(s.subrange(177, 180) =~= ", "@ + "?"@);
    lemma_led(s, list_leads, list_parts, 4, 167, 177, 180);
    assert(s.subrange(180, 183) =~= ", "@ + "?"@);
    lemma_led(s, list_leads, list_parts, 5, 167, 180, 183);
    assert(s.subrange(183, 186) =~= ", "@ + "?"@);
    lemma_led(s, list_leads, list_parts, 6, 167, 183, 186);
    assert(s.subrange(186, 189) =~= ", "@ + "?"@);
    lemma_led(s, list_leads, list_parts, 7, 167, 186, 189);
    assert(s.subrange(189, 192) =~= ", "@ + "?"@);
    lemma_led(s, list_leads, list_parts, 8, 167, 189, 192);
    assert(s.subrange(192, 195) =~= ", "@ + "?"@);
    lemma_led(s, list_leads, list_parts, 9, 167, 192, 195);
    assert(s.subrange(195, 198) =~= ", "@ + "?"@);
    lemma_led(s, list_leads, list_parts, 10, 167, 195, 198);
}

/// One of the lists in the text of `UPSERT_SKILL`.
proof fn lemma_skill_upsert_changes()
    ensures
        UPSERT_SKILL@.len() >= 624,
        UPSERT_SKILL@.subrange(238, 624) == led(skill_upsert().leads,
            merge_texts(skill_upsert().merges)),
{
    let s = UPSERT_SKILL@;
    reveal_strlit("INSERT INTO skills (id, title, content, triggers, tags, applies_to, risk_level,
                             enabled, source, source_doc_id, version)
         VALUES (?, ?, ?, ?, ?, ?, ?, ?, ?, ?, ?)
         ON CONFLICT(id) DO UPDATE SET
            title=excluded.title, content=excluded.content, triggers=excluded.triggers,
            tags=excluded.tags, applies_to=excluded.applies_to, risk_level=excluded.risk_level,
            enabled=excluded.enabled, source=excluded.source, source_doc_id=excluded.source_doc_id,
            version=excluded.version + 1,
            updated_at=strftime('%Y-%m-%dT%H:%M:%fZ','now')");
    reveal_strlit("\n            ");
    reveal_strlit(" + 1");
    reveal_strlit(",\n            ");
    reveal_strlit(", ");
    reveal_strlit("=");
    reveal_strlit("applies_to");
    reveal_strlit("content");
    reveal_strlit("enabled");
    reveal_strlit("excluded.");
    reveal_strlit("risk_level");
    reveal_strlit("source");
    reveal_strlit("source_doc_id");
    reveal_strlit("strftime('%Y-%m-%dT%H:%M:%fZ','now')");
    reveal_strlit("tags");
    reveal_strlit("title");
    reveal_strlit("triggers");
    reveal_strlit("updated_at");
    reveal_strlit("version");
    let list_leads = skill_upsert().leads;
    let list_parts = merge_texts(skill_upsert().merges);
    assert(s.subrange(238, 238) =~= led_upto(list_leads, list_parts, 0));
    assert(s.subrange(238, 271) =~= "\n            "@ + ("title"@ + "="@ + ("excluded."@
        + "title"@)));
    lemma_led(s, list_leads, list_parts, 0, 238, 238, 271);
    assert(s.subrange(271, 297) =~= ", "@ + ("content"@ + "="@ + ("excluded."@ + "content"@)));
    lemma_led(s, list_leads, list_parts, 1, 238, 271, 297);
    assert(s.subrange(297, 325) =~= ", "@ + ("triggers"@ + "="@ + ("excluded."@ + "triggers"@)));
    lemma_led(s, list_leads, list_parts, 2, 238, 297, 325);
    assert(s.subrange(325, 357) =~= ",\n            "@ + ("tags"@ + "="@ + ("excluded."@
        + "tags"@)));
    lemma_led(s, list_leads, list_parts, 3, 238, 325, 357);
    assert(s.subrange(357, 389) =~= ", "@ + ("applies_to"@ + "="@ + ("excluded."@
        + "applies_to"@)));
    lemma_led(s, list_leads, list_parts, 4, 238, 357, 389);
    assert(s.subrange(389, 421) =~= ", "@ + ("risk_level"@ + "="@ + ("excluded."@
        + "risk_level"@)));
    lemma_led(s, list_leads, list_parts, 5, 238, 389, 421);
    assert(s.subrange(421, 459) =~= ",\n            "@ + ("enabled"@ + "="@ + ("excluded."@
        + "enabled"@)));
    lemma_led(s, list_leads, list_parts, 6, 238, 421, 459);
    assert(s.subrange(459, 483) =~= ", "@ + ("source"@ + "="@ + ("excluded."@ + "source"@)));
    lemma_led(s, list_leads, list_parts, 7, 238, 459, 483);
    assert(s.subrange(483, 521) =~= ", "@ + ("source_doc_id"@ + "="@ + ("excluded."@
        + "source_doc_id"@)));
    lemma_led(s, list_leads, list_parts, 8, 238, 483, 521);
    assert(s.subrange(521, 563) =~= ",\n            "@ + ("version"@ + "="@ + ("excluded."@
        + "version"@ + " + 1"@)));
    lemma_led(s, list_leads, list_parts, 9, 238, 521, 563);
    assert(s.subrange(563, 624) =~= ",\n            "@ + ("updated_at"@ + "="@
        + "strftime('%Y-%m-%dT%H:%M:%fZ','now')"@));
    lemma_led(s, list_leads, list_parts, 10, 238, 563, 624);
}

/// One of the lists in the text of `CONVERT_DOC`.
proof fn lemma_conversion_upsert_columns()
    ensures
        CONVERT_DOC@.len() >= 148,
        CONVERT_DOC@.subrange(20, 148) == led(conversion_upsert().insert.leads,
            columns_of(conversion_upsert().insert.terms)),
{
    let s = CONVERT_DOC@;
    reveal_strlit("INSERT INTO skills (id, title, content, triggers, tags, applies_to, risk_level,
                             enabled, source, source_doc_id, version)
         VALUES (?, ?, ?, NULL, ?, NULL, 'low', 0, 'from_doc', ?, 1)
         ON CONFLICT(id) DO UPDATE SET
            title=excluded.title, content=excluded.content, tags=excluded.tags,
            source_doc_id=excluded.source_doc_id,
            enabled=0,
            version=skills.version + 1,
            updated_at=strftime('%Y-%m-%dT%H:%M:%fZ','now')");
    reveal_strlit(",\n                             ");
    reveal_strlit(", ");
    reveal_strlit("applies_to");
    reveal_strlit("content");
    reveal_strlit("enabled");
    reveal_strlit("id");
    reveal_strlit("risk_level");
    reveal_strlit("source");
    reveal_strlit("source_doc_id");
    reveal_strlit("tags");
    reveal_strlit("title");
    reveal_strlit("triggers");
    reveal_strlit("version");
    let list_leads = conversion_upsert().insert.leads;
    let list_parts = columns_of(conversion_upsert().insert.terms);
    assert(s.subrange(20, 20) =~= led_upto(list_leads, list_parts, 0));
    assert(s.subrange(20, 22) =~= Seq::<char>::empty() + "id"@);
    lemma_led(s, list_leads, list_parts, 0, 20, 20, 22);
    assert(s.subrange(22, 29) =~= ", "@ + "title"@);
    lemma_led(s, list_leads, list_parts, 1, 20, 22, 29);
    assert(s.subrange(29, 38) =~= ", "@ + "content"@);
    lemma_led(s, list_leads, list_parts, 2, 20, 29, 38);
    assert(s.subrange(38, 48) =~= ", "@ + "triggers"@);
    lemma_led(s, list_leads, list_parts, 3, 20, 38, 48);
    assert(s.subrange(48, 54) =~= ", "@ + "tags"@);
    lemma_led(s, list_leads, list_parts, 4, 20, 48, 54);
    assert(s.subrange(54, 66) =~= ", "@ + "applies_to"@);
    lemma_led(s, list_leads, list_parts, 5, 20, 54, 66);
    assert(s.subrange(66, 78) =~= ", "@ + "risk_level"@);
    lemma_led(s, list_leads, list_parts, 6, 20, 66, 78);
    assert(s.subrange(78, 116) =~= ",\n                             "@ + "enabled"@);
    lemma_led(s, list_leads, list_parts, 7, 20, 78, 116);
    assert(s.subrange(116, 124) =~= ", "@ + "source"@);
    lemma_led(s, list_leads, list_parts, 8, 20, 116, 124);
    assert(s.subrange(124, 139) =~= ", "@ + "source_doc_id"@);
    lemma_led(s, list_leads, list_parts, 9, 20, 124, 139);
    assert(s.subrange(139, 148) =~= ", "@ + "version"@);
    lemma_led(s, list_leads, list_parts, 10, 20, 139, 148);
}

/// One of the lists in the text of `CONVERT_DOC`.
proof fn lemma_conversion_upsert_values()
    ensures
        CONVERT_DOC@.len() >= 217,
        CONVERT_DOC@.subrange(167, 217) == led(between(", "@,
            expr_texts(conversion_upsert().insert.terms).len()),
            expr_texts(conversion_upsert().insert.terms)),
{
    let s = CONVERT_DOC@;
    reveal_strlit("INSERT INTO skills (id, title, content, triggers, tags, applies_to, risk_level,
                             enabled, source, source_doc_id, version)
         VALUES (?, ?, ?, NULL, ?, NULL, 'low', 0, 'from_doc', ?, 1)
         ON CONFLICT(id) DO UPDATE SET
            title=excluded.title, content=excluded.content, tags=excluded.tags,
            source_doc_id=excluded.source_doc_id,
            enabled=0,
            version=skills.version + 1,
            updated_at=strftime('%Y-%m-%dT%H:%M:%fZ','now')");
    reveal_strlit("'");
    reveal_strlit(", ");
    reveal_strlit("?");
    reveal_strlit("NULL");
    reveal_strlit("from_doc");
    reveal_strlit("low");
    assert(decimal(0) =~= seq!['0']);
    assert(decimal(1) =~= seq!['1']);
    let list_leads = between(", "@, expr_texts(conversion_upsert().insert.terms).len());
    let list_parts = expr_texts(conversion_upsert().insert.terms);
    assert(s.subrange(167, 167) =~= led_upto(list_leads, list_parts, 0));
    assert(s.subrange(167, 168) =~= Seq::<char>::empty() + "?"@);
    lemma_led(s, list_leads, list_parts, 0, 167, 167, 168);
    assert(s.subrange(168, 171) =~= ", "@ + "?"@);
    lemma_led(s, list_leads, list_parts, 1, 167, 168, 171);
    assert(s.subrange(171, 174) =~= ", "@ + "?"@);
    lemma_led(s, list_leads, list_parts, 2, 167, 171, 174);
    assert(s.subrange(174, 180) =~= ", "@ + "NULL"@);
    lemma_led(s, list_leads, list_parts, 3, 167, 174, 180);
    assert(s.subrange(180, 183) =~= ", "@ + "?"@);
    lemma_led(s, list_leads, list_parts, 4, 167, 180, 183);
    assert(s.subrange(183, 189) =~= ", "@ + "NULL"@);
    lemma_led(s, list_leads, list_parts, 5, 167, 183, 189);
    assert(s.subrange(189, 196) =~= ", "@ + ("'"@ + "low"@ + "'"@));
    lemma_led(s, list_leads, list_parts, 6, 167, 189, 196);
    assert(s.subrange(196, 199) =~= ", "@ + decimal(0));
    lemma_led(s, list_leads, list_parts, 7, 167, 196, 199);
    assert(s.subrange(199, 211) =~= ", "@ + ("'"@ + "from_doc"@ + "'"@));
    lemma_led(s, list_leads, list_parts, 8, 167, 199, 211);
    assert(s.subrange(211, 214) =~= ", "@ + "?"@);
    lemma_led(s, list_leads, list_parts, 9, 167, 211, 214);
    assert(s.subrange(214, 217) =~= ", "@ + decimal(1));
    lemma_led(s, list_leads, list_parts, 10, 167, 214, 217);
}

/// One of the lists in the text of `CONVERT_DOC`.
proof fn lemma_conversion_upsert_changes()
    ensures
        CONVERT_DOC@.len() >= 510,
        CONVERT_DOC@.subrange(257, 510) == led(conversion_upsert().leads,
            merge_texts(conversion_upsert().merges)),
{
    let s = CONVERT_DOC@;
    reveal_strlit("INSERT INTO skills (id, title, content, triggers, tags, applies_to, risk_level,
                             enabled, source, source_doc_id, version)
         VALUES (?, ?, ?, NULL, ?, NULL, 'low', 0, 'from_doc', ?, 1)
         ON CONFLICT(id) DO UPDATE SET
            title=excluded.title, content=excluded.content, tags=excluded.tags,
            source_doc_id=excluded.source_doc_id,
            enabled=0,
            version=skills.version + 1,
            updated_at=strftime('%Y-%m-%dT%H:%M:%fZ','now')");
    reveal_strlit("\n            ");
    reveal_strlit(" + 1");
    reveal_strlit(",\n            ");
    reveal_strlit(", ");
    reveal_strlit(".");
    reveal_strlit("=");
    reveal_strlit("content");
    reveal_strlit("enabled");
    reveal_strlit("excluded.");
    reveal_strlit("skills");
    reveal_strlit("source_doc_id");
    reveal_strlit("strftime('%Y-%m-%dT%H:%M:%fZ','now')");
    reveal_strlit("tags");
    reveal_strlit("title");
    reveal_strlit("updated_at");
    reveal_strlit("version");
    assert(decimal(0) =~= seq!['0']);
    let list_leads = conversion_upsert().leads;
    let list_parts = merge_texts(conversion_upsert().merges);
    assert(s.subrange(257, 257) =~= led_upto(list_leads, list_parts, 0));
    assert(s.subrange(257, 290) =~= "\n            "@ + ("title"@ + "="@ + ("excluded."@
        + "title"@)));
    lemma_led(s, list_leads, list_parts, 0, 257, 257, 290);
    assert(s.subrange(290, 316) =~= ", "@ + ("content"@ + "="@ + ("excluded."@ + "content"@)));
    lemma_led(s, list_leads, list_parts, 1, 257, 290, 316);
    assert(s.subrange(316, 336) =~= ", "@ + ("tags"@ + "="@ + ("excluded."@ + "tags"@)));
    lemma_led(s, list_leads, list_parts, 2, 257, 316, 336);
    assert(s.subrange(336, 386) =~= ",\n            "@ + ("source_doc_id"@ + "="@
        + ("excluded."@ + "source_doc_id"@)));
    lemma_led(s, list_leads, list_parts, 3, 257, 336, 386);
    assert(s.subrange(386, 409) =~= ",\n            "@ + ("enabled"@ + "="@ + decimal(0)));
    lemma_led(s, list_leads, list_parts, 4, 257, 386, 409);
    assert(s.subrange(409, 449) =~= ",\n            "@ + ("version"@ + "="@ + ("skills"@ + "."@
        + "version"@ + " + 1"@)));
    lemma_led(s, list_leads, list_parts, 5, 257, 409, 449);
    assert(s.subrange(449, 510) =~= ",\n            "@ + ("updated_at"@ + "="@
        + "strftime('%Y-%m-%dT%H:%M:%fZ','now')"@));
    lemma_led(s, list_leads, list_parts, 6, 257, 449, 510);
}

/// One of the lists in the text of `UPSERT_QUICK_ACTION`.
proof fn lemma_quick_action_upsert_columns()
    ensures
        UPSERT_QUICK_ACTION@.len() >= 73,
        UPSERT_QUICK_ACTION@.subrange(27, 73) == led(quick_action_upsert().insert.leads,
            columns_of(quick_action_upsert().insert.terms)),
{
    let s = UPSERT_QUICK_ACTION@;
    reveal_strlit("INSERT INTO quick_actions (id, name, icon, target, steps, approval, audit)
         VALUES (?, ?, ?, ?, ?, ?, ?)
         ON CONFLICT(id) DO UPDATE SET
            name=excluded.name, icon=excluded.icon, target=excluded.target,
            steps=excluded.steps, approval=excluded.approval, audit=excluded.audit,
            updated_at=strftime('%Y-%m-%dT%H:%M:%fZ','now')");
    reveal_strlit(", ");
    reveal_strlit("approval");
    reveal_strlit("audit");
    reveal_strlit("icon");
    reveal_strlit("id");
    reveal_strlit("name");
    reveal_strlit("steps");
    reveal_strlit("target");
    let list_leads = quick_action_upsert().insert.leads;
    let list_parts = columns_of(quick_action_upsert().insert.terms);
    assert(s.subrange(27, 27) =~= led_upto(list_leads, list_parts, 0));
    assert(s.subrange(27, 29) =~= Seq::<char>::empty() + "id"@);
    lemma_led(s, list_leads, list_parts, 0, 27, 27, 29);
    assert(s.subrange(29, 35) =~= ", "@ + "name"@);
    lemma_led(s, list_leads, list_parts, 1, 27, 29, 35);
    assert(s.subrange(35, 41) =~= ", "@ + "icon"@);
    lemma_led(s, list_leads, list_parts, 2, 27, 35, 41);
    assert(s.subrange(41, 49) =~= ", "@ + "target"@);
    lemma_led(s, list_leads, list_parts, 3, 27, 41, 49);
    assert(s.subrange(49, 56) =~= ", "@ + "steps"@);
    lemma_led(s, list_leads, list_parts, 4, 27, 49, 56);
    assert(s.subrange(56, 66) =~= ", "@ + "approval"@);
    lemma_led(s, list_leads, list_parts, 5, 27, 56, 66);
    assert(s.subrange(66, 73) =~= ", "@ + "audit"@);
    lemma_led(s, list_leads, list_parts, 6, 27, 66, 73);
}

/// One of the lists in the text of `UPSERT_QUICK_ACTION`.
proof fn lemma_quick_action_upsert_values()
    ensures
        UPSERT_QUICK_ACTION@.len() >= 111,
        UPSERT_QUICK_ACTION@.subrange(92, 111) == led(between(", "@,
            expr_texts(quick_action_upsert().insert.terms).len()),
            expr_texts(quick_action_upsert().insert.terms)),
{
    let s = UPSERT_QUICK_ACTION@;
    reveal_strlit("INSERT INTO quick_actions (id, name, icon, target, steps, approval, audit)
         VALUES (?, ?, ?, ?, ?, ?, ?)
         ON CONFLICT(id) DO UPDATE SET
            name=excluded.name, icon=excluded.icon, target=excluded.target,
            steps=excluded.steps, approval=excluded.approval, audit=excluded.audit,
            updated_at=strftime('%Y-%m-%dT%H:%M:%fZ','now')");
    reveal_strlit(", ");
    reveal_strlit("?");
    let list_leads = between(", "@, expr_texts(quick_action_upsert().insert.terms).len());
    let list_parts = expr_texts(quick_action_upsert().insert.terms);
    assert(s.subrange(92, 92) =~= led_upto(list_leads, list_parts, 0));
    assert(s.subrange(92, 93) =~= Seq::<char>::empty() + "?"@);
    lemma_led(s, list_leads, list_parts, 0, 92, 92, 93);
    assert(s.subrange(93, 96) =~= ", "@ + "?"@);
    lemma_led(s, list_leads, list_parts, 1, 92, 93, 96);
    assert(s.subrange(96, 99) =~= ", "@ + "?"@);
    lemma_led(s, list_leads, list_parts, 2, 92, 96, 99);
    assert(s.subrange(99, 102) =~= ", "@ + "?"@);
    lemma_led(s, list_leads, list_parts, 3, 92, 99, 102);
    assert(s.subrange(102, 105) =~= ", "@ + "?"@);
    lemma_led(s, list_leads, list_parts, 4, 92, 102, 105);
    assert(s.subrange(105, 108) =~= ", "@ + "?"@);
    lemma_led(s, list_leads, list_parts, 5, 92, 105, 108);
    assert(s.subrange(108, 111) =~= ", "@ + "?"@);
    lemma_led(s, list_leads, list_parts, 6, 92, 108, 111);
}

/// One of the lists in the text of `UPSERT_QUICK_ACTION`.
proof fn lemma_quick_action_upsert_changes()
    ensures
        UPSERT_QUICK_ACTION@.len() >= 371,
        UPSERT_QUICK_ACTION@.subrange(151, 371) == led(quick_action_upsert().leads,
            merge_texts(quick_action_upsert().merges)),
{
    let s = UPSERT_QUICK_ACTION@;
    reveal_strlit("INSERT INTO quick_actions (id, name, icon, target, steps, approval, audit)
         VALUES (?, ?, ?, ?, ?, ?, ?)
         ON CONFLICT(id) DO UPDATE SET
            name=excluded.name, icon=excluded.icon, target=excluded.target,
            steps=excluded.steps, approval=excluded.approval, audit=excluded.audit,
            updated_at=strftime('%Y-%m-%dT%H:%M:%fZ','now')");
    reveal_strlit("\n            ");
    reveal_strlit(",\n            ");
    reveal_strlit(", ");
    reveal_strlit("=");
    reveal_strlit("approval");
    reveal_strlit("audit");
    reveal_strlit("excluded.");
    reveal_strlit("icon");
    reveal_strlit("name");
    reveal_strlit("steps");
    reveal_strlit("strftime('%Y-%m-%dT%H:%M:%fZ','now')");
    reveal_strlit("target");
    reveal_strlit("updated_at");
    let list_leads = quick_action_upsert().leads;
    let list_parts = merge_texts(quick_action_upsert().merges);
    assert(s.subrange(151, 151) =~= led_upto(list_leads, list_parts, 0));
    assert(s.subrange(151, 182) =~= "\n            "@ + ("name"@ + "="@ + ("excluded."@
        + "name"@)));
    lemma_led(s, list_leads, list_parts, 0, 151, 151, 182);
    assert(s.subrange(182, 202) =~= ", "@ + ("icon"@ + "="@ + ("excluded."@ + "icon"@)));
    lemma_led(s, list_leads, list_parts, 1, 151, 182, 202);
    assert(s.subrange(202, 226) =~= ", "@ + ("target"@ + "="@ + ("excluded."@ + "target"@)));
    lemma_led(s, list_leads, list_parts, 2, 151, 202, 226);
    assert(s.subrange(226, 260) =~= ",\n            "@ + ("steps"@ + "="@ + ("excluded."@
        + "steps"@)));
    lemma_led(s, list_leads, list_parts, 3, 151, 226, 260);
    assert(s.subrange(260, 288) =~= ", "@ + ("approval"@ + "="@ + ("excluded."@ + "approval"@)));
    lemma_led(s, list_leads, list_parts, 4, 151, 260, 288);
    assert(s.subrange(288, 310) =~= ", "@ + ("audit"@ + "="@ + ("excluded."@ + "audit"@)));
    lemma_led(s, list_leads, list_parts, 5, 151, 288, 310);
    assert(s.subrange(310, 371) =~= ",\n            "@ + ("updated_at"@ + "="@
        + "strftime('%Y-%m-%dT%H:%M:%fZ','now')"@));
    lemma_led(s, list_leads, list_parts, 6, 151, 310, 371);
}

/// One of the lists in the text of `UPSERT_DOC`.
proof fn lemma_doc_upsert_columns()
    ensures
        UPSERT_DOC@.len() >= 120,
        UPSERT_DOC@.subrange(18, 120) == led(doc_upsert().insert.leads,
            columns_of(doc_upsert().insert.terms)),
{
    let s = UPSERT_DOC@;
    reveal_strlit("INSERT INTO docs (id, type, title, content, session_id, server_id, generated_by,
                           tags, status)
         VALUES (?, ?, ?, ?, ?, ?, ?, ?, ?)
         ON CONFLICT(id) DO UPDATE SET
            type=excluded.type, title=excluded.title, content=excluded.content,
            session_id=excluded.session_id, server_id=excluded.server_id,
            generated_by=excluded.generated_by, tags=excluded.tags, status=excluded.status,
            updated_at=strftime('%Y-%m-%dT%H:%M:%fZ','now')");
    reveal_strlit(",\n                           ");
    reveal_strlit(", ");
    reveal_strlit("content");
    reveal_strlit("generated_by");
    reveal_strlit("id");
    reveal_strlit("server_id");
    reveal_strlit("session_id");
    reveal_strlit("status");
    reveal_strlit("tags");
    reveal_strlit("title");
    reveal_strlit("type");
    let list_leads = doc_upsert().insert.leads;
    let list_parts = columns_of(doc_upsert().insert.terms);
    assert(s.subrange(18, 18) =~= led_upto(list_leads, list_parts, 0));
    assert(s.subrange(18, 20) =~= Seq::<char>::empty() + "id"@);
    lemma_led(s, list_leads, list_parts, 0, 18, 18, 20);
    assert(s.subrange(20, 26) =~= ", "@ + "type"@);
    lemma_led(s, list_leads, list_parts, 1, 18, 20, 26);
    assert(s.subrange(26, 33) =~= ", "@ + "title"@);
    lemma_led(s, list_leads, list_parts, 2, 18, 26, 33);
    assert(s.subrange(33, 42) =~= ", "@ + "content"@);
    lemma_led(s, list_leads, list_parts, 3, 18, 33, 42);
    assert(s.subrange(42, 54) =~= ", "@ + "session_id"@);
    lemma_led(s, list_leads, list_parts, 4, 18, 42, 54);
    assert(s.subrange(54, 65) =~= ", "@ + "server_id"@);
    lemma_led(s, list_leads, list_parts, 5, 18, 54, 65);
    assert(s.subrange(65, 79) =~= ", "@ + "generated_by"@);
    lemma_led(s, list_leads, list_parts, 6, 18, 65, 79);
    assert(s.subrange(79, 112) =~= ",\n                           "@ + "tags"@);
    lemma_led(s, list_leads, list_parts, 7, 18, 79, 112);
    assert(s.subrange(112, 120) =~= ", "@ + "status"@);
    lemma_led(s, list_leads, list_parts, 8, 18, 112, 120);
}

/// One of the lists in the text of `UPSERT_DOC`.
proof fn lemma_doc_upsert_values()
    ensures
        UPSERT_DOC@.len() >= 164,
        UPSERT_DOC@.subrange(139, 164) == led(between(", "@,
            expr_texts(doc_upsert().insert.terms).len()), expr_texts(doc_upsert().insert.terms)),
{
    let s = UPSERT_DOC@;
    reveal_strlit("INSERT INTO docs (id, type, title, content, session_id, server_id, generated_by,
                           tags, status)
         VALUES (?, ?, ?, ?, ?, ?, ?, ?, ?)
         ON CONFLICT(id) DO UPDATE SET
            type=excluded.type, title=excluded.title, content=excluded.content,
            session_id=excluded.session_id, server_id=excluded.server_id,
            generated_by=excluded.generated_by, tags=excluded.tags, status=excluded.status,
            updated_at=strftime('%Y-%m-%dT%H:%M:%fZ','now')");
    reveal_strlit(", ");
    reveal_strlit("?");
    let list_leads = between(", "@, expr_texts(doc_upsert().insert.terms).len());
    let list_parts = expr_texts(doc_upsert().insert.terms);
    assert(s.subrange(139, 139) =~= led_upto(list_leads, list_parts, 0));
    assert(s.subrange(139, 140) =~= Seq::<char>::empty() + "?"@);
    lemma_led(s, list_leads, list_parts, 0, 139, 139, 140);
    assert(s.subrange(140, 143) =~= ", "@ + "?"@);
    lemma_led(s, list_leads, list_parts, 1, 139, 140, 143);
    assert(s.subrange(143, 146) =~= ", "@ + "?"@);
    lemma_led(s, list_leads, list_parts, 2, 139, 143, 146);
    assert(s.subrange(146, 149) =~= ", "@ + "?"@);
    lemma_led(s, list_leads, list_parts, 3, 139, 146, 149);
    assert(s.subrange(149, 152) =~= ", "@ + "?"@);
    lemma_led(s, list_leads, list_parts, 4, 139, 149, 152);
    assert(s.subrange(152, 155) =~= ", "@ + "?"@);
    lemma_led(s, list_leads, list_parts, 5, 139, 152, 155);
    assert(s.subrange(155, 158) =~= ", "@ + "?"@);
    lemma_led(s, list_leads, list_parts, 6, 139, 155, 158);
    assert(s.subrange(158, 161) =~= ", "@ + "?"@);
    lemma_led(s, list_leads, list_parts, 7, 139, 158, 161);
    assert(s.subrange(161, 164) =~= ", "@ + "?"@);
    lemma_led(s, list_leads, list_parts, 8, 139, 161, 164);
}

/// One of the lists in the text of `UPSERT_DOC`.
proof fn lemma_doc_upsert_changes()
    ensures
        UPSERT_DOC@.len() >= 510,
        UPSERT_DOC@.subrange(204, 510) == led(doc_upsert().leads, merge_texts(doc_upsert().merges)),
{
    let s = UPSERT_DOC@;
    reveal_strlit("INSERT INTO docs (id, type, title, content, session_id, server_id, generated_by,
                           tags, status)
         VALUES (?, ?, ?, ?, ?, ?, ?, ?, ?)
         ON CONFLICT(id) DO UPDATE SET
            type=excluded.type, title=excluded.title, content=excluded.content,
            session_id=excluded.session_id, server_id=excluded.server_id,
            generated_by=excluded.generated_by, tags=excluded.tags, status=excluded.status,
            updated_at=strftime('%Y-%m-%dT%H:%M:%fZ','now')");
    reveal_strlit("\n            ");
    reveal_strlit(",\n            ");
    reveal_strlit(", ");
    reveal_strlit("=");
    reveal_strlit("content");
    reveal_strlit("excluded.");
    reveal_strlit("generated_by");
    reveal_strlit("server_id");
    reveal_strlit("session_id");
    reveal_strlit("status");
    reveal_strlit("strftime('%Y-%m-%dT%H:%M:%fZ','now')");
    reveal_strlit("tags");
    reveal_strlit("title");
    reveal_strlit("type");
    reveal_strlit("updated_at");
    let list_leads = doc_upsert().leads;
    let list_parts = merge_texts(doc_upsert().merges);
    assert(s.subrange(204, 204) =~= led_upto(list_leads, list_parts, 0));
    assert(s.subrange(204, 235) =~= "\n            "@ + ("type"@ + "="@ + ("excluded."@
        + "type"@)));
    lemma_led(s, list_leads, list_parts, 0, 204, 204, 235);
    assert(s.subrange(235, 257) =~= ", "@ + ("title"@ + "="@ + ("excluded."@ + "title"@)));
    lemma_led(s, list_leads, list_parts, 1, 204, 235, 257);
    assert(s.subrange(257, 283) =~= ", "@ + ("content"@ + "="@ + ("excluded."@ + "content"@)));
    lemma_led(s, list_leads, list_parts, 2, 204, 257, 283);
    assert(s.subrange(283, 327) =~= ",\n            "@ + ("session_id"@ + "="@ + ("excluded."@
        + "session_id"@)));
    lemma_led(s, list_leads, list_parts, 3, 204, 283, 327);
    assert(s.subrange(327, 357) =~= ", "@ + ("server_id"@ + "="@ + ("excluded."@ + "server_id"@)));
    lemma_led(s, list_leads, list_parts, 4, 204, 327, 357);
    assert(s.subrange(357, 405) =~= ",\n            "@ + ("generated_by"@ + "="@ + ("excluded."@
        + "generated_by"@)));
    lemma_led(s, list_leads, list_parts, 5, 204, 357, 405);
    assert(s.subrange(405, 425) =~= ", "@ + ("tags"@ + "="@ + ("excluded."@ + "tags"@)));
    lemma_led(s, list_leads, list_parts, 6, 204, 405, 425);
    assert(s.subrange(425, 449) =~= ", "@ + ("status"@ + "="@ + ("excluded."@ + "status"@)));
    lemma_led(s, list_leads, list_parts, 7, 204, 425, 449);
    assert(s.subrange(449, 510) =~= ",\n            "@ + ("updated_at"@ + "="@
        + "strftime('%Y-%m-%dT%H:%M:%fZ','now')"@));
    lemma_led(s, list_leads, list_parts, 8, 204, 449, 510);
}

/// The text of `FINISH_AUDIT_LOG`, clause by clause.
pub proof fn lemma_finish_update_text()
    ensures
        FINISH_AUDIT_LOG@ == finish_update().text(),
{
    let s = FINISH_AUDIT_LOG@;
    reveal_strlit("UPDATE audit_logs
         SET outcome=?, exit_code=?, output=?, success=?, duration_ms=?
         WHERE id=? AND outcome='pending'");
    reveal_strlit("\n         ");
    reveal_strlit(" AND ");
    reveal_strlit("'");
    reveal_strlit("=");
    reveal_strlit("?");
    reveal_strlit("SET ");
    reveal_strlit("UPDATE ");
    reveal_strlit("WHERE ");
    reveal_strlit("audit_logs");
    reveal_strlit("id");
    reveal_strlit("outcome");
    reveal_strlit("pending");
    assert(s.subrange(0, 7) =~= "UPDATE "@);
    assert(s.subrange(7, 17) =~= "audit_logs"@);
    assert(s.subrange(17, 27) =~= "\n         "@);
    assert(s.subrange(27, 31) =~= "SET "@);
    lemma_finish_update_assignments();
    assert(s.subrange(89, 99) =~= "\n         "@);
    assert(s.subrange(99, 105) =~= "WHERE "@);
    let part7_leads = between(" AND "@, term_texts(finish_update().conditions, "="@).len());
    let part7_parts = term_texts(finish_update().conditions, "="@);
    assert(s.subrange(105, 105) =~= led_upto(part7_leads, part7_parts, 0));
    assert(s.subrange(105, 109) =~= Seq::<char>::empty() + ("id"@ + "="@ + "?"@));
    lemma_led(s, part7_leads, part7_parts, 0, 105, 105, 109);
    assert(s.subrange(109, 131) =~= " AND "@ + ("outcome"@ + "="@ + ("'"@ + "pending"@ + "'"@)));
    lemma_led(s, part7_leads, part7_parts, 1, 105, 109, 131);
    assert(s.subrange(105, 131) == led(between(" AND "@, term_texts(finish_update().conditions,
        "="@).len()), term_texts(finish_update().conditions, "="@)));
    assert(s =~= s.subrange(0, 7) + s.subrange(7, 17) + s.subrange(17, 27) + s.subrange(27, 31)
        + s.subrange(31, 89) + s.subrange(89, 99) + s.subrange(99, 105) + s.subrange(105, 131));
}

/// The text of `TOGGLE_SKILL`, clause by clause.
pub proof fn lemma_toggle_update_text()
    ensures
        TOGGLE_SKILL@ == toggle_update().text(),
{
    let s = TOGGLE_SKILL@;
    reveal_strlit("UPDATE skills SET enabled=?, updated_at=strftime('%Y-%m-%dT%H:%M:%fZ','now') WHERE id=?");
    reveal_strlit(" ");
    reveal_strlit(", ");
    reveal_strlit("=");
    reveal_strlit("?");
    reveal_strlit("SET ");
    reveal_strlit("UPDATE ");
    reveal_strlit("WHERE ");
    reveal_strlit("enabled");
    reveal_strlit("id");
    reveal_strlit("skills");
    reveal_strlit("strftime('%Y-%m-%dT%H:%M:%fZ','now')");
    reveal_strlit("updated_at");
    assert(s.subrange(0, 7) =~= "UPDATE "@);
    assert(s.subrange(7, 13) =~= "skills"@);
    assert(s.subrange(13, 14) =~= " "@);
    assert(s.subrange(14, 18) =~= "SET "@);
    let part4_leads = between(", "@, term_texts(toggle_update().assignments, "="@).len());
    let part4_parts = term_texts(toggle_update().assignments, "="@);
    assert(s.subrange(18, 18) =~= led_upto(part4_leads, part4_parts, 0));
    assert(s.subrange(18, 27) =~= Seq::<char>::empty() + ("enabled"@ + "="@ + "?"@));
    lemma_led(s, part4_leads, part4_parts, 0, 18, 18, 27);
    assert(s.subrange(27, 76) =~= ", "@ + ("updated_at"@ + "="@
        + "strftime('%Y-%m-%dT%H:%M:%fZ','now')"@));
    lemma_led(s, part4_leads, part4_parts, 1, 18, 27, 76);
    assert(s.subrange(18, 76) == led(between(", "@, term_texts(toggle_update().assignments,
        "="@).len()), term_texts(toggle_update().assignments, "="@)));
    assert(s.subrange(76, 77) =~= " "@);
    assert(s.subrange(77, 83) =~= "WHERE "@);
    let part7_leads = between(" AND "@, term_texts(toggle_update().conditions, "="@).len());
    let part7_parts = term_texts(toggle_update().conditions, "="@);
    assert(s.subrange(83, 83) =~= led_upto(part7_leads, part7_parts, 0));
    assert(s.subrange(83, 87) =~= Seq::<char>::empty() + ("id"@ + "="@ + "?"@));
    lemma_led(s, part7_leads, part7_parts, 0, 83, 83, 87);
    assert(s.subrange(83, 87) == led(between(" AND "@, term_texts(toggle_update().conditions,
        "="@).len()), term_texts(toggle_update().conditions, "="@)));
    assert(s =~= s.subrange(0, 7) + s.subrange(7, 13) + s.subrange(13, 14) + s.subrange(14, 18)
        + s.subrange(18, 76) + s.subrange(76, 77) + s.subrange(77, 83) + s.subrange(83, 87));
}

/// The text of `UPDATE_DOC_STATUS`, clause by clause.
pub proof fn lemma_status_update_text()
    ensures
        UPDATE_DOC_STATUS@ == status_update().text(),
{
    let s = UPDATE_DOC_STATUS@;
    reveal_strlit("UPDATE docs SET status=?, updated_at=strftime('%Y-%m-%dT%H:%M:%fZ','now') WHERE id=?");
    reveal_strlit(" ");
    reveal_strlit(", ");
    reveal_strlit("=");
    reveal_strlit("?");
    reveal_strlit("SET ");
    reveal_strlit("UPDATE ");
    reveal_strlit("WHERE ");
    reveal_strlit("docs");
    reveal_strlit("id");
    reveal_strlit("status");
    reveal_strlit("strftime('%Y-%m-%dT%H:%M:%fZ','now')");
    reveal_strlit("updated_at");
    assert(s.subrange(0, 7) =~= "UPDATE "@);
    assert(s.subrange(7, 11) =~= "docs"@);
    assert(s.subrange(11, 12) =~= " "@);
    assert(s.subrange(12, 16) =~= "SET "@);
    let part4_leads = between(", "@, term_texts(status_update().assignments, "="@).len());
    let part4_parts = term_texts(status_update().assignments, "="@);
    assert(s.subrange(16, 16) =~= led_upto(part4_leads, part4_parts, 0));
    assert(s.subrange(16, 24) =~= Seq::<char>::empty() + ("status"@ + "="@ + "?"@));
    lemma_led(s, part4_leads, part4_parts, 0, 16, 16, 24);
    assert(s.subrange(24, 73) =~= ", "@ + ("updated_at"@ + "="@
        + "strftime('%Y-%m-%dT%H:%M:%fZ','now')"@));
    lemma_led(s, part4_leads, part4_parts, 1, 16, 24, 73);
    assert(s.subrange(16, 73) == led(between(", "@, term_texts(status_update().assignments,
        "="@).len()), term_texts(status_update().assignments, "="@)));
    assert(s.subrange(73, 74) =~= " "@);
    assert(s.subrange(74, 80) =~= "WHERE "@);
    let part7_leads = between(" AND "@, term_texts(status_update().conditions, "="@).len());
    let part7_parts = term_texts(status_update().conditions, "="@);
    assert(s.subrange(80, 80) =~= led_upto(part7_leads, part7_parts, 0));
    assert(s.subrange(80, 84) =~= Seq::<char>::empty() + ("id"@ + "="@ + "?"@));
    lemma_led(s, part7_leads, part7_parts, 0, 80, 80, 84);
    assert(s.subrange(80, 84) == led(between(" AND "@, term_texts(status_update().conditions,
        "="@).len()), term_texts(status_update().conditions, "="@)));
    assert(s =~= s.subrange(0, 7) + s.subrange(7, 11) + s.subrange(11, 12) + s.subrange(12, 16)
        + s.subrange(16, 73) + s.subrange(73, 74) + s.subrange(74, 80) + s.subrange(80, 84));
}

/// The text of `INSERT_AUDIT_LOG`, clause by clause.
pub proof fn lemma_entry_insert_text()
    ensures
        INSERT_AUDIT_LOG@ == entry_insert().text_returning("id"@),
{
    let s = INSERT_AUDIT_LOG@;
    reveal_strlit("INSERT INTO audit_logs
            (timestamp, session_id, server_id, server_host, source, tool_name,
             command, args, exit_code, output, success, outcome, approved_by, proposal_id, duration_ms)
         VALUES (?, ?, ?, ?, ?, ?, ?, ?, ?, ?, ?, ?, ?, ?, ?)
         RETURNING id");
    reveal_strlit("\n         ");
    reveal_strlit("\n            ");
    reveal_strlit("(");
    reveal_strlit(")");
    reveal_strlit("INSERT INTO ");
    reveal_strlit("RETURNING ");
    reveal_strlit("VALUES (");
    reveal_strlit("audit_logs");
    reveal_strlit("id");
    assert(s.subrange(0, 12) =~= "INSERT INTO "@);
    assert(s.subrange(12, 22) =~= "audit_logs"@);
    assert(s.subrange(22, 35) =~= "\n            "@);
    assert(s.subrange(35, 36) =~= "("@);
    lemma_entry_insert_columns();
    assert(s.subrange(204, 205) =~= ")"@);
    assert(s.subrange(205, 215) =~= "\n         "@);
    assert(s.subrange(215, 223) =~= "VALUES ("@);
    lemma_entry_insert_values();
    assert(s.subrange(266, 267) =~= ")"@);
    assert(s.subrange(267, 277) =~= "\n         "@);
    assert(s.subrange(277, 287) =~= "RETURNING "@);
    assert(s.subrange(287, 289) =~= "id"@);
    assert(s =~= s.subrange(0, 12) + s.subrange(12, 22) + s.subrange(22, 35) + s.subrange(35,
        36) + s.subrange(36, 204) + s.subrange(204, 205) + s.subrange(205, 215) + s.subrange(215,
        223) + s.subrange(223, 266) + s.subrange(266, 267) + s.subrange(267, 277)
        + s.subrange(277, 287) + s.subrange(287, 289));
}

/// The text of `UPSERT_SKILL`, clause by clause.
pub proof fn lemma_skill_upsert_text()
    ensures
        UPSERT_SKILL@ == skill_upsert().text(),
{
    let s = UPSERT_SKILL@;
    reveal_strlit("INSERT INTO skills (id, title, content, triggers, tags, applies_to, risk_level,
                             enabled, source, source_doc_id, version)
         VALUES (?, ?, ?, ?, ?, ?, ?, ?, ?, ?, ?)
         ON CONFLICT(id) DO UPDATE SET
            title=excluded.title, content=excluded.content, triggers=excluded.triggers,
            tags=excluded.tags, applies_to=excluded.applies_to, risk_level=excluded.risk_level,
            enabled=excluded.enabled, source=excluded.source, source_doc_id=excluded.source_doc_id,
            version=excluded.version + 1,
            updated_at=strftime('%Y-%m-%dT%H:%M:%fZ','now')");
    reveal_strlit("\n         ");
    reveal_strlit(" ");
    reveal_strlit("(");
    reveal_strlit(")");
    reveal_strlit(") DO UPDATE SET");
    reveal_strlit("INSERT INTO ");
    reveal_strlit("ON CONFLICT(");
    reveal_strlit("VALUES (");
    reveal_strlit("id");
    reveal_strlit("skills");
    assert(s.subrange(0, 12) =~= "INSERT INTO "@);
    assert(s.subrange(12, 18) =~= "skills"@);
    assert(s.subrange(18, 19) =~= " "@);
    assert(s.subrange(19, 20) =~= "("@);
    lemma_skill_upsert_columns();
    assert(s.subrange(148, 149) =~= ")"@);
    assert(s.subrange(149, 159) =~= "\n         "@);
    assert(s.subrange(159, 167) =~= "VALUES ("@);
    lemma_skill_upsert_values();
    assert(s.subrange(198, 199) =~= ")"@);
    assert(s.subrange(199, 209) =~= "\n         "@);
    assert(s.subrange(209, 221) =~= "ON CONFLICT("@);
    assert(s.subrange(221, 223) =~= "id"@);
    assert(s.subrange(223, 238) =~= ") DO UPDATE SET"@);
    lemma_skill_upsert_changes();
    assert(s =~= s.subrange(0, 12) + s.subrange(12, 18) + s.subrange(18, 19) + s.subrange(19,
        20) + s.subrange(20, 148) + s.subrange(148, 149) + s.subrange(149, 159) + s.subrange(159,
        167) + s.subrange(167, 198) + s.subrange(198, 199) + s.subrange(199, 209)
        + s.subrange(209, 221) + s.subrange(221, 223) + s.subrange(223, 238) + s.subrange(238,
        624));
}

/// The text of `CONVERT_DOC`, clause by clause.
pub proof fn lemma_conversion_upsert_text()
    ensures
        CONVERT_DOC@ == conversion_upsert().text(),
{
    let s = CONVERT_DOC@;
    reveal_strlit("INSERT INTO skills (id, title, content, triggers, tags, applies_to, risk_level,
                             enabled, source, source_doc_id, version)
         VALUES (?, ?, ?, NULL, ?, NULL, 'low', 0, 'from_doc', ?, 1)
         ON CONFLICT(id) DO UPDATE SET
            title=excluded.title, content=excluded.content, tags=excluded.tags,
            source_doc_id=excluded.source_doc_id,
            enabled=0,
            version=skills.version + 1,
            updated_at=strftime('%Y-%m-%dT%H:%M:%fZ','now')");
    reveal_strlit("\n         ");
    reveal_strlit(" ");
    reveal_strlit("(");
    reveal_strlit(")");
    reveal_strlit(") DO UPDATE SET");
    reveal_strlit("INSERT INTO ");
    reveal_strlit("ON CONFLICT(");
    reveal_strlit("VALUES (");
    reveal_strlit("id");
    reveal_strlit("skills");
    assert(s.subrange(0, 12) =~= "INSERT INTO "@);
    assert(s.subrange(12, 18) =~= "skills"@);
    assert(s.subrange(18, 19) =~= " "@);
    assert(s.subrange(19, 20) =~= "("@);
    lemma_conversion_upsert_columns();
    assert(s.subrange(148, 149) =~= ")"@);
    assert(s.subrange(149, 159) =~= "\n         "@);
    assert(s.subrange(159, 167) =~= "VALUES ("@);
    lemma_conversion_upsert_values();
    assert(s.subrange(217, 218) =~= ")"@);
    assert(s.subrange(218, 228) =~= "\n         "@);
    assert(s.subrange(228, 240) =~= "ON CONFLICT("@);
    assert(s.subrange(240, 242) =~= "id"@);
    assert(s.subrange(242, 257) =~= ") DO UPDATE SET"@);
    lemma_conversion_upsert_changes();
    assert(s =~= s.subrange(0, 12) + s.subrange(12, 18) + s.subrange(18, 19) + s.subrange(19,
        20) + s.subrange(20, 148) + s.subrange(148, 149) + s.subrange(149, 159) + s.subrange(159,
        167) + s.subrange(167, 217) + s.subrange(217, 218) + s.subrange(218, 228)
        + s.subrange(228, 240) + s.subrange(240, 242) + s.subrange(242, 257) + s.subrange(257,
        510));
}

/// The text of `UPSERT_QUICK_ACTION`, clause by clause.
pub proof fn lemma_quick_action_upsert_text()
    ensures
        UPSERT_QUICK_ACTION@ == quick_action_upsert().text(),
{
    let s = UPSERT_QUICK_ACTION@;
    reveal_strlit("INSERT INTO quick_actions (id, name, icon, target, steps, approval, audit)
         VALUES (?, ?, ?, ?, ?, ?, ?)
         ON CONFLICT(id) DO UPDATE SET
            name=excluded.name, icon=excluded.icon, target=excluded.target,
            steps=excluded.steps, approval=excluded.approval, audit=excluded.audit,
            updated_at=strftime('%Y-%m-%dT%H:%M:%fZ','now')");
    reveal_strlit("\n         ");
    reveal_strlit(" ");
    reveal_strlit("(");
    reveal_strlit(")");
    reveal_strlit(") DO UPDATE SET");
    reveal_strlit("INSERT INTO ");
    reveal_strlit("ON CONFLICT(");
    reveal_strlit("VALUES (");
    reveal_strlit("id");
    reveal_strlit("quick_actions");
    assert(s.subrange(0, 12) =~= "INSERT INTO "@);
    assert(s.subrange(12, 25) =~= "quick_actions"@);
    assert(s.subrange(25, 26) =~= " "@);
    assert(s.subrange(26, 27) =~= "("@);
    lemma_quick_action_upsert_columns();
    assert(s.subrange(73, 74) =~= ")"@);
    assert(s.subrange(74, 84) =~= "\n         "@);
    assert(s.subrange(84, 92) =~= "VALUES ("@);
    lemma_quick_action_upsert_values();
    assert(s.subrange(111, 112) =~= ")"@);
    assert(s.subrange(112, 122) =~= "\n         "@);
    assert(s.subrange(122, 134) =~= "ON CONFLICT("@);
    assert(s.subrange(134, 136) =~= "id"@);
    assert(s.subrange(136, 151) =~= ") DO UPDATE SET"@);
    lemma_quick_action_upsert_changes();
    assert(s =~= s.subrange(0, 12) + s.subrange(12, 25) + s.subrange(25, 26) + s.subrange(26,
        27) + s.subrange(27, 73) + s.subrange(73, 74) + s.subrange(74, 84) + s.subrange(84, 92)
        + s.subrange(92, 111) + s.subrange(111, 112) + s.subrange(112, 122) + s.subrange(122,
        134) + s.subrange(134, 136) + s.subrange(136, 151) + s.subrange(151, 371));
}

/// The text of `UPSERT_DOC`, clause by clause.
pub proof fn lemma_doc_upsert_text()
    ensures
        UPSERT_DOC@ == doc_upsert().text(),
{
    let s = UPSERT_DOC@;
    reveal_strlit("INSERT INTO docs (id, type, title, content, session_id, server_id, generated_by,
                           tags, status)
         VALUES (?, ?, ?, ?, ?, ?, ?, ?, ?)
         ON CONFLICT(id) DO UPDATE SET
            type=excluded.type, title=excluded.title, content=excluded.content,
            session_id=excluded.session_id, server_id=excluded.server_id,
            generated_by=excluded.generated_by, tags=excluded.tags, status=excluded.status,
            updated_at=strftime('%Y-%m-%dT%H:%M:%fZ','now')");
    reveal_strlit("\n         ");
    reveal_strlit(" ");
    reveal_strlit("(");
    reveal_strlit(")");
    reveal_strlit(") DO UPDATE SET");
    reveal_strlit("INSERT INTO ");
    reveal_strlit("ON CONFLICT(");
    reveal_strlit("VALUES (");
    reveal_strlit("docs");
    reveal_strlit("id");
    assert(s.subrange(0, 12) =~= "INSERT INTO "@);
    assert(s.subrange(12, 16) =~= "docs"@);
    assert(s.subrange(16, 17) =~= " "@);
    assert(s.subrange(17, 18) =~= "("@);
    lemma_doc_upsert_columns();
    assert(s.subrange(120, 121) =~= ")"@);
    assert(s.subrange(121, 131) =~= "\n         "@);
    assert(s.subrange(131, 139) =~= "VALUES ("@);
    lemma_doc_upsert_values();
    assert(s.subrange(164, 165) =~= ")"@);
    assert(s.subrange(165, 175) =~= "\n         "@);
    assert(s.subrange(175, 187) =~= "ON CONFLICT("@);
    assert(s.subrange(187, 189) =~= "id"@);
    assert(s.subrange(189, 204) =~= ") DO UPDATE SET"@);
    lemma_doc_upsert_changes();
    assert(s =~= s.subrange(0, 12) + s.subrange(12, 16) + s.subrange(16, 17) + s.subrange(17,
        18) + s.subrange(18, 120) + s.subrange(120, 121) + s.subrange(121, 131) + s.subrange(131,
        139) + s.subrange(139, 164) + s.subrange(164, 165) + s.subrange(165, 175)
        + s.subrange(175, 187) + s.subrange(187, 189) + s.subrange(189, 204) + s.subrange(204,
        510));
}

/// The text of `DELETE_SKILL`, clause by clause.
pub proof fn lemma_delete_skill_text()
    ensures
        DELETE_SKILL@ == id_delete("skills"@).text(),
{
    let s = DELETE_SKILL@;
    reveal_strlit("DELETE FROM skills WHERE id = ?");
    reveal_strlit(" = ");
    reveal_strlit(" WHERE ");
    reveal_strlit("?");
    reveal_strlit("DELETE FROM ");
    reveal_strlit("id");
    reveal_strlit("skills");
    assert(s.subrange(0, 12) =~= "DELETE FROM "@);
    assert(s.subrange(12, 18) =~= "skills"@);
    assert(s.subrange(18, 25) =~= " WHERE "@);
    let part21_leads = between(" AND "@, term_texts(id_delete("skills"@).conditions, " = "@).len());
    let part21_parts = term_texts(id_delete("skills"@).conditions, " = "@);
    assert(s.subrange(25, 25) =~= led_upto(part21_leads, part21_parts, 0));
    assert(s.subrange(25, 31) =~= Seq::<char>::empty() + ("id"@ + " = "@ + "?"@));
    lemma_led(s, part21_leads, part21_parts, 0, 25, 25, 31);
    assert(s.subrange(25, 31) == led(between(" AND "@,
        term_texts(id_delete("skills"@).conditions, " = "@).len()),
        term_texts(id_delete("skills"@).conditions, " = "@)));
    assert(s =~= s.subrange(0, 12) + s.subrange(12, 18) + (s.subrange(18, 25) + s.subrange(25,
        31)));
}

/// The text of `DELETE_QUICK_ACTION`, clause by clause.
pub proof fn lemma_delete_quick_action_text()
    ensures
        DELETE_QUICK_ACTION@ == id_delete("quick_actions"@).text(),
{
    let s = DELETE_QUICK_ACTION@;
    reveal_strlit("DELETE FROM quick_actions WHERE id = ?");
    reveal_strlit(" = ");
    reveal_strlit(" WHERE ");
    reveal_strlit("?");
    reveal_strlit("DELETE FROM ");
    reveal_strlit("id");
    reveal_strlit("quick_actions");
    assert(s.subrange(0, 12) =~= "DELETE FROM "@);
    assert(s.subrange(12, 25) =~= "quick_actions"@);
    assert(s.subrange(25, 32) =~= " WHERE "@);
    let part21_leads = between(" AND "@, term_texts(id_delete("quick_actions"@).conditions,
        " = "@).len());
    let part21_parts = term_texts(id_delete("quick_actions"@).conditions, " = "@);
    assert(s.subrange(32, 32) =~= led_upto(part21_leads, part21_parts, 0));
    assert(s.subrange(32, 38) =~= Seq::<char>::empty() + ("id"@ + " = "@ + "?"@));
    lemma_led(s, part21_leads, part21_parts, 0, 32, 32, 38);
    assert(s.subrange(32, 38) == led(between(" AND "@,
        term_texts(id_delete("quick_actions"@).conditions, " = "@).len()),
        term_texts(id_delete("quick_actions"@).conditions, " = "@)));
    assert(s =~= s.subrange(0, 12) + s.subrange(12, 25) + (s.subrange(25, 32) + s.subrange(32,
        38)));
}

/// The text of `DELETE_DOC`, clause by clause.
pub proof fn lemma_delete_doc_text()
    ensures
        DELETE_DOC@ == id_delete("docs"@).text(),
{
    let s = DELETE_DOC@;
    reveal_strlit("DELETE FROM docs WHERE id = ?");
    reveal_strlit(" = ");
    reveal_strlit(" WHERE ");
    reveal_strlit("?");
    reveal_strlit("DELETE FROM ");
    reveal_strlit("docs");
    reveal_strlit("id");
    assert(s.subrange(0, 12) =~= "DELETE FROM "@);
    assert(s.subrange(12, 16) =~= "docs"@);
    assert(s.subrange(16, 23) =~= " WHERE "@);
    let part21_leads = between(" AND "@, term_texts(id_delete("docs"@).conditions, " = "@).len());
    let part21_parts = term_texts(id_delete("docs"@).conditions, " = "@);
    assert(s.subrange(23, 23) =~= led_upto(part21_leads, part21_parts, 0));
    assert(s.subrange(23, 29) =~= Seq::<char>::empty() + ("id"@ + " = "@ + "?"@));
    lemma_led(s, part21_leads, part21_parts, 0, 23, 23, 29);
    assert(s.subrange(23, 29) == led(between(" AND "@, term_texts(id_delete("docs"@).conditions,
        " = "@).len()), term_texts(id_delete("docs"@).conditions, " = "@)));
    assert(s =~= s.subrange(0, 12) + s.subrange(12, 16) + (s.subrange(16, 23) + s.subrange(23,
        29)));
}

/// The text of `GET_SKILL`, clause by clause.
pub proof fn lemma_get_skill_text()
    ensures
        GET_SKILL@ == id_select("*"@, "skills"@).text(),
{
    let s = GET_SKILL@;
    reveal_strlit("SELECT * FROM skills WHERE id = ?");
    reveal_strlit(" = ");
    reveal_strlit(" FROM ");
    reveal_strlit(" WHERE ");
    reveal_strlit("*");
    reveal_strlit("?");
    reveal_strlit("SELECT ");
    reveal_strlit("id");
    reveal_strlit("skills");
    assert(s.subrange(0, 7) =~= "SELECT "@);
    assert(s.subrange(7, 8) =~= "*"@);
    assert(s.subrange(8, 14) =~= " FROM "@);
    assert(s.subrange(14, 20) =~= "skills"@);
    assert(s.subrange(20, 27) =~= " WHERE "@);
    let part41_leads = between(" AND "@, term_texts(id_select("*"@, "skills"@).conditions,
        " = "@).len());
    let part41_parts = term_texts(id_select("*"@, "skills"@).conditions, " = "@);
    assert(s.subrange(27, 27) =~= led_upto(part41_leads, part41_parts, 0));
    assert(s.subrange(27, 33) =~= Seq::<char>::empty() + ("id"@ + " = "@ + "?"@));
    lemma_led(s, part41_leads, part41_parts, 0, 27, 27, 33);
    assert(s.subrange(27, 33) == led(between(" AND "@, term_texts(id_select("*"@,
        "skills"@).conditions, " = "@).len()), term_texts(id_select("*"@, "skills"@).conditions,
        " = "@)));
    assert(s =~= s.subrange(0, 7) + s.subrange(7, 8) + s.subrange(8, 14) + s.subrange(14, 20)
        + (s.subrange(20, 27) + s.subrange(27, 33)) + Seq::<char>::empty());
}

/// The text of `GET_QUICK_ACTION`, clause by clause.
pub proof fn lemma_get_quick_action_text()
    ensures
        GET_QUICK_ACTION@ == id_select("*"@, "quick_actions"@).text(),
{
    let s = GET_QUICK_ACTION@;
    reveal_strlit("SELECT * FROM quick_actions WHERE id = ?");
    reveal_strlit(" = ");
    reveal_strlit(" FROM ");
    reveal_strlit(" WHERE ");
    reveal_strlit("*");
    reveal_strlit("?");
    reveal_strlit("SELECT ");
    reveal_strlit("id");
    reveal_strlit("quick_actions");
    assert(s.subrange(0, 7) =~= "SELECT "@);
    assert(s.subrange(7, 8) =~= "*"@);
    assert(s.subrange(8, 14) =~= " FROM "@);
    assert(s.subrange(14, 27) =~= "quick_actions"@);
    assert(s.subrange(27, 34) =~= " WHERE "@);
    let part41_leads = between(" AND "@, term_texts(id_select("*"@, "quick_actions"@).conditions,
        " = "@).len());
    let part41_parts = term_texts(id_select("*"@, "quick_actions"@).conditions, " = "@);
    assert(s.subrange(34, 34) =~= led_upto(part41_leads, part41_parts, 0));
    assert(s.subrange(34, 40) =~= Seq::<char>::empty() + ("id"@ + " = "@ + "?"@));
    lemma_led(s, part41_leads, part41_parts, 0, 34, 34, 40);
    assert(s.subrange(34, 40) == led(between(" AND "@, term_texts(id_select("*"@,
        "quick_actions"@).conditions, " = "@).len()), term_texts(id_select("*"@,
        "quick_actions"@).conditions, " = "@)));
    assert(s =~= s.subrange(0, 7) + s.subrange(7, 8) + s.subrange(8, 14) + s.subrange(14, 27)
        + (s.subrange(27, 34) + s.subrange(34, 40)) + Seq::<char>::empty());
}

/// The text of `GET_DOC`, clause by clause.
pub proof fn lemma_get_doc_text()
    ensures
        GET_DOC@ == id_select("*"@, "docs"@).text(),
{
    let s = GET_DOC@;
    reveal_strlit("SELECT * FROM docs WHERE id = ?");
    reveal_strlit(" = ");
    reveal_strlit(" FROM ");
    reveal_strlit(" WHERE ");
    reveal_strlit("*");
    reveal_strlit("?");
    reveal_strlit("SELECT ");
    reveal_strlit("docs");
    reveal_strlit("id");
    assert(s.subrange(0, 7) =~= "SELECT "@);
    assert(s.subrange(7, 8) =~= "*"@);
    assert(s.subrange(8, 14) =~= " FROM "@);
    assert(s.subrange(14, 18) =~= "docs"@);
    assert(s.subrange(18, 25) =~= " WHERE "@);
    let part41_leads = between(" AND "@, term_texts(id_select("*"@, "docs"@).conditions,
        " = "@).len());
    let part41_parts = term_texts(id_select("*"@, "docs"@).conditions, " = "@);
    assert(s.subrange(25, 25) =~= led_upto(part41_leads, part41_parts, 0));
    assert(s.subrange(25, 31) =~= Seq::<char>::empty() + ("id"@ + " = "@ + "?"@));
    lemma_led(s, part41_leads, part41_parts, 0, 25, 25, 31);
    assert(s.subrange(25, 31) == led(between(" AND "@, term_texts(id_select("*"@,
        "docs"@).conditions, " = "@).len()), term_texts(id_select("*"@, "docs"@).conditions,
        " = "@)));
    assert(s =~= s.subrange(0, 7) + s.subrange(7, 8) + s.subrange(8, 14) + s.subrange(14, 18)
        + (s.subrange(18, 25) + s.subrange(25, 31)) + Seq::<char>::empty());
}

/// The text of `GET_SERVER_HOST`, clause by clause.
pub proof fn lemma_get_server_host_text()
    ensures
        GET_SERVER_HOST@ == id_select("host"@, "servers"@).text(),
{
    let s = GET_SERVER_HOST@;
    reveal_strlit("SELECT host FROM servers WHERE id = ?");
    reveal_strlit(" = ");
    reveal_strlit(" FROM ");
    reveal_strlit(" WHERE ");
    reveal_strlit("?");
    reveal_strlit("SELECT ");
    reveal_strlit("host");
    reveal_strlit("id");
    reveal_strlit("servers");
    assert(s.subrange(0, 7) =~= "SELECT "@);
    assert(s.subrange(7, 11) =~= "host"@);
    assert(s.subrange(11, 17) =~= " FROM "@);
    assert(s.subrange(17, 24) =~= "servers"@);
    assert(s.subrange(24, 31) =~= " WHERE "@);
    let part41_leads = between(" AND "@, term_texts(id_select("host"@, "servers"@).conditions,
        " = "@).len());
    let part41_parts = term_texts(id_select("host"@, "servers"@).conditions, " = "@);
    assert(s.subrange(31, 31) =~= led_upto(part41_leads, part41_parts, 0));
    assert(s.subrange(31, 37) =~= Seq::<char>::empty() + ("id"@ + " = "@ + "?"@));
    lemma_led(s, part41_leads, part41_parts, 0, 31, 31, 37);
    assert(s.subrange(31, 37) == led(between(" AND "@, term_texts(id_select("host"@,
        "servers"@).conditions, " = "@).len()), term_texts(id_select("host"@,
        "servers"@).conditions, " = "@)));
    assert(s =~= s.subrange(0, 7) + s.subrange(7, 11) + s.subrange(11, 17) + s.subrange(17, 24)
        + (s.subrange(24, 31) + s.subrange(31, 37)) + Seq::<char>::empty());
}

/// The text of `LIST_SKILLS`, clause by clause.
pub proof fn lemma_list_skills_text()
    ensures
        LIST_SKILLS@ == skills_select().text(),
{
    let s = LIST_SKILLS@;
    reveal_strlit("SELECT * FROM skills ORDER BY title");
    reveal_strlit(" FROM ");
    reveal_strlit(" ORDER BY ");
    reveal_strlit("*");
    reveal_strlit("SELECT ");
    reveal_strlit("skills");
    reveal_strlit("title");
    assert(s.subrange(0, 7) =~= "SELECT "@);
    assert(s.subrange(7, 8) =~= "*"@);
    assert(s.subrange(8, 14) =~= " FROM "@);
    assert(s.subrange(14, 20) =~= "skills"@);
    assert(s.subrange(20, 30) =~= " ORDER BY "@);
    assert(s.subrange(30, 35) =~= "title"@);
    assert(s =~= s.subrange(0, 7) + s.subrange(7, 8) + s.subrange(8, 14) + s.subrange(14, 20)
        + Seq::<char>::empty() + (s.subrange(20, 30) + s.subrange(30, 35)));
}

/// The text of `LIST_ENABLED_SKILLS`, clause by clause.
pub proof fn lemma_list_enabled_skills_text()
    ensures
        LIST_ENABLED_SKILLS@ == enabled_skills_select().text(),
{
    let s = LIST_ENABLED_SKILLS@;
    reveal_strlit("SELECT * FROM skills WHERE enabled = 1 ORDER BY title");
    reveal_strlit(" = ");
    reveal_strlit(" FROM ");
    reveal_strlit(" ORDER BY ");
    reveal_strlit(" WHERE ");
    reveal_strlit("*");
    reveal_strlit("SELECT ");
    reveal_strlit("enabled");
    reveal_strlit("skills");
    reveal_strlit("title");
    assert(s.subrange(0, 7) =~= "SELECT "@);
    assert(s.subrange(7, 8) =~= "*"@);
    assert(s.subrange(8, 14) =~= " FROM "@);
    assert(s.subrange(14, 20) =~= "skills"@);
    assert(s.subrange(20, 27) =~= " WHERE "@);
    assert(decimal(1) =~= seq!['1']);
    let part41_leads = between(" AND "@, term_texts(enabled_skills_select().conditions,
        " = "@).len());
    let part41_parts = term_texts(enabled_skills_select().conditions, " = "@);
    assert(s.subrange(27, 27) =~= led_upto(part41_leads, part41_parts, 0));
    assert(s.subrange(27, 38) =~= Seq::<char>::empty() + ("enabled"@ + " = "@ + decimal(1)));
    lemma_led(s, part41_leads, part41_parts, 0, 27, 27, 38);
    assert(s.subrange(27, 38) == led(between(" AND "@,
        term_texts(enabled_skills_select().conditions, " = "@).len()),
        term_texts(enabled_skills_select().conditions, " = "@)));
    assert(s.subrange(38, 48) =~= " ORDER BY "@);
    assert(s.subrange(48, 53) =~= "title"@);
    assert(s =~= s.subrange(0, 7) + s.subrange(7, 8) + s.subrange(8, 14) + s.subrange(14, 20)
        + (s.subrange(20, 27) + s.subrange(27, 38)) + (s.subrange(38, 48) + s.subrange(48, 53)));
}

/// The text of `LIST_QUICK_ACTIONS`, clause by clause.
pub proof fn lemma_list_quick_actions_text()
    ensures
        LIST_QUICK_ACTIONS@ == quick_actions_select().text(),
{
    let s = LIST_QUICK_ACTIONS@;
    reveal_strlit("SELECT * FROM quick_actions ORDER BY name");
    reveal_strlit(" FROM ");
    reveal_strlit(" ORDER BY ");
    reveal_strlit("*");
    reveal_strlit("SELECT ");
    reveal_strlit("name");
    reveal_strlit("quick_actions");
    assert(s.subrange(0, 7) =~= "SELECT "@);
    assert(s.subrange(7, 8) =~= "*"@);
    assert(s.subrange(8, 14) =~= " FROM "@);
    assert(s.subrange(14, 27) =~= "quick_actions"@);
    assert(s.subrange(27, 37) =~= " ORDER BY "@);
    assert(s.subrange(37, 41) =~= "name"@);
    assert(s =~= s.subrange(0, 7) + s.subrange(7, 8) + s.subrange(8, 14) + s.subrange(14, 27)
        + Seq::<char>::empty() + (s.subrange(27, 37) + s.subrange(37, 41)));
}

/// The text of `LIST_DOCS`, clause by clause.
pub proof fn lemma_list_docs_text()
    ensures
        LIST_DOCS@ == docs_select().text(),
{
    let s = LIST_DOCS@;
    reveal_strlit("SELECT * FROM docs ORDER BY datetime(created_at) DESC");
    reveal_strlit(" DESC");
    reveal_strlit(" FROM ");
    reveal_strlit(" ORDER BY ");
    reveal_strlit(")");
    reveal_strlit("*");
    reveal_strlit("SELECT ");
    reveal_strlit("created_at");
    reveal_strlit("datetime(");
    reveal_strlit("docs");
    assert(s.subrange(0, 7) =~= "SELECT "@);
    assert(s.subrange(7, 8) =~= "*"@);
    assert(s.subrange(8, 14) =~= " FROM "@);
    assert(s.subrange(14, 18) =~= "docs"@);
    assert(s.subrange(18, 28) =~= " ORDER BY "@);
    assert(s.subrange(28, 48) =~= ("datetime("@ + "created_at"@ + ")"@));
    assert(s.subrange(48, 53) =~= " DESC"@);
    assert(s =~= s.subrange(0, 7) + s.subrange(7, 8) + s.subrange(8, 14) + s.subrange(14, 18)
        + Seq::<char>::empty() + (s.subrange(18, 28) + s.subrange(28, 48) + s.subrange(48, 53)));
}

/// The text of `SESSION_AUDIT_LOGS`, clause by clause.
pub proof fn lemma_session_audit_logs_text()
    ensures
        SESSION_AUDIT_LOGS@ == session_select().text(),
{
    let s = SESSION_AUDIT_LOGS@;
    reveal_strlit("SELECT * FROM audit_logs WHERE session_id = ? ORDER BY timestamp ASC");
    reveal_strlit(" = ");
    reveal_strlit(" ASC");
    reveal_strlit(" FROM ");
    reveal_strlit(" ORDER BY ");
    reveal_strlit(" WHERE ");
    reveal_strlit("*");
    reveal_strlit("?");
    reveal_strlit("SELECT ");
    reveal_strlit("audit_logs");
    reveal_strlit("session_id");
    reveal_strlit("timestamp");
    assert(s.subrange(0, 7) =~= "SELECT "@);
    assert(s.subrange(7, 8) =~= "*"@);
    assert(s.subrange(8, 14) =~= " FROM "@);
    assert(s.subrange(14, 24) =~= "audit_logs"@);
    assert(s.subrange(24, 31) =~= " WHERE "@);
    let part41_leads = between(" AND "@, term_texts(session_select().conditions, " = "@).len());
    let part41_parts = term_texts(session_select().conditions, " = "@);
    assert(s.subrange(31, 31) =~= led_upto(part41_leads, part41_parts, 0));
    assert(s.subrange(31, 45) =~= Seq::<char>::empty() + ("session_id"@ + " = "@ + "?"@));
    lemma_led(s, part41_leads, part41_parts, 0, 31, 31, 45);
    assert(s.subrange(31, 45) == led(between(" AND "@, term_texts(session_select().conditions,
        " = "@).len()), term_texts(session_select().conditions, " = "@)));
    assert(s.subrange(45, 55) =~= " ORDER BY "@);
    assert(s.subrange(55, 64) =~= "timestamp"@);
    assert(s.subrange(64, 68) =~= " ASC"@);
    assert(s =~= s.subrange(0, 7) + s.subrange(7, 8) + s.subrange(8, 14) + s.subrange(14, 24)
        + (s.subrange(24, 31) + s.subrange(31, 45)) + (s.subrange(45, 55) + s.subrange(55, 64)
        + s.subrange(64, 68)));
}

/// The text of `COUNT_AUDIT_LOGS`, clause by clause.
pub proof fn lemma_count_audit_logs_text()
    ensures
        COUNT_AUDIT_LOGS@ == entry_count().text(),
{
    let s = COUNT_AUDIT_LOGS@;
    reveal_strlit("SELECT COUNT(*) AS c FROM audit_logs");
    reveal_strlit("SELECT COUNT(*) AS c FROM ");
    reveal_strlit("audit_logs");
    assert(s.subrange(0, 26) =~= "SELECT COUNT(*) AS c FROM "@);
    assert(s.subrange(26, 36) =~= "audit_logs"@);
    assert(s =~= s.subrange(0, 26) + s.subrange(26, 36) + Seq::<char>::empty());
}

/// The text of `COUNT_SUCCEEDED`, clause by clause.
pub proof fn lemma_count_succeeded_text()
    ensures
        COUNT_SUCCEEDED@ == outcome_count("succeeded"@).text(),
{
    let s = COUNT_SUCCEEDED@;
    reveal_strlit("SELECT COUNT(*) AS c FROM audit_logs WHERE outcome = 'succeeded'");
    reveal_strlit(" = ");
    reveal_strlit(" WHERE ");
    reveal_strlit("'");
    reveal_strlit("SELECT COUNT(*) AS c FROM ");
    reveal_strlit("audit_logs");
    reveal_strlit("outcome");
    reveal_strlit("succeeded");
    assert(s.subrange(0, 26) =~= "SELECT COUNT(*) AS c FROM "@);
    assert(s.subrange(26, 36) =~= "audit_logs"@);
    assert(s.subrange(36, 43) =~= " WHERE "@);
    let part21_leads = between(" AND "@, term_texts(outcome_count("succeeded"@).conditions,
        " = "@).len());
    let part21_parts = term_texts(outcome_count("succeeded"@).conditions, " = "@);
    assert(s.subrange(43, 43) =~= led_upto(part21_leads, part21_parts, 0));
    assert(s.subrange(43, 64) =~= Seq::<char>::empty() + ("outcome"@ + " = "@ + ("'"@
        + "succeeded"@ + "'"@)));
    lemma_led(s, part21_leads, part21_parts, 0, 43, 43, 64);
    assert(s.subrange(43, 64) == led(between(" AND "@,
        term_texts(outcome_count("succeeded"@).conditions, " = "@).len()),
        term_texts(outcome_count("succeeded"@).conditions, " = "@)));
    assert(s =~= s.subrange(0, 26) + s.subrange(26, 36) + (s.subrange(36, 43) + s.subrange(43,
        64)));
}

/// The text of `COUNT_FAILED`, clause by clause.
pub proof fn lemma_count_failed_text()
    ensures
        COUNT_FAILED@ == outcome_count("failed"@).text(),
{
    let s = COUNT_FAILED@;
    reveal_strlit("SELECT COUNT(*) AS c FROM audit_logs WHERE outcome = 'failed'");
    reveal_strlit(" = ");
    reveal_strlit(" WHERE ");
    reveal_strlit("'");
    reveal_strlit("SELECT COUNT(*) AS c FROM ");
    reveal_strlit("audit_logs");
    reveal_strlit("failed");
    reveal_strlit("outcome");
    assert(s.subrange(0, 26) =~= "SELECT COUNT(*) AS c FROM "@);
    assert(s.subrange(26, 36) =~= "audit_logs"@);
    assert(s.subrange(36, 43) =~= " WHERE "@);
    let part21_leads = between(" AND "@, term_texts(outcome_count("failed"@).conditions,
        " = "@).len());
    let part21_parts = term_texts(outcome_count("failed"@).conditions, " = "@);
    assert(s.subrange(43, 43) =~= led_upto(part21_leads, part21_parts, 0));
    assert(s.subrange(43, 61) =~= Seq::<char>::empty() + ("outcome"@ + " = "@ + ("'"@
        + "failed"@ + "'"@)));
    lemma_led(s, part21_leads, part21_parts, 0, 43, 43, 61);
    assert(s.subrange(43, 61) == led(between(" AND "@,
        term_texts(outcome_count("failed"@).conditions, " = "@).len()),
        term_texts(outcome_count("failed"@).conditions, " = "@)));
    assert(s =~= s.subrange(0, 26) + s.subrange(26, 36) + (s.subrange(36, 43) + s.subrange(43,
        61)));
}

/// The text of `COUNT_UNKNOWN`, clause by clause.
pub proof fn lemma_count_unknown_text()
    ensures
        COUNT_UNKNOWN@ == outcome_count("unknown"@).text(),
{
    let s = COUNT_UNKNOWN@;
    reveal_strlit("SELECT COUNT(*) AS c FROM audit_logs WHERE outcome = 'unknown'");
    reveal_strlit(" = ");
    reveal_strlit(" WHERE ");
    reveal_strlit("'");
    reveal_strlit("SELECT COUNT(*) AS c FROM ");
    reveal_strlit("audit_logs");
    reveal_strlit("outcome");
    reveal_strlit("unknown");
    assert(s.subrange(0, 26) =~= "SELECT COUNT(*) AS c FROM "@);
    assert(s.subrange(26, 36) =~= "audit_logs"@);
    assert(s.subrange(36, 43) =~= " WHERE "@);
    let part21_leads = between(" AND "@, term_texts(outcome_count("unknown"@).conditions,
        " = "@).len());
    let part21_parts = term_texts(outcome_count("unknown"@).conditions, " = "@);
    assert(s.subrange(43, 43) =~= led_upto(part21_leads, part21_parts, 0));
    assert(s.subrange(43, 62) =~= Seq::<char>::empty() + ("outcome"@ + " = "@ + ("'"@
        + "unknown"@ + "'"@)));
    lemma_led(s, part21_leads, part21_parts, 0, 43, 43, 62);
    assert(s.subrange(43, 62) == led(between(" AND "@,
        term_texts(outcome_count("unknown"@).conditions, " = "@).len()),
        term_texts(outcome_count("unknown"@).conditions, " = "@)));
    assert(s =~= s.subrange(0, 26) + s.subrange(26, 36) + (s.subrange(36, 43) + s.subrange(43,
        62)));
}

/// The text of `COUNT_PENDING`, clause by clause.
pub proof fn lemma_count_pending_text()
    ensures
        COUNT_PENDING@ == outcome_count("pending"@).text(),
{
    let s = COUNT_PENDING@;
    reveal_strlit("SELECT COUNT(*) AS c FROM audit_logs WHERE outcome = 'pending'");
    reveal_strlit(" = ");
    reveal_strlit(" WHERE ");
    reveal_strlit("'");
    reveal_strlit("SELECT COUNT(*) AS c FROM ");
    reveal_strlit("audit_logs");
    reveal_strlit("outcome");
    reveal_strlit("pending");
    assert(s.subrange(0, 26) =~= "SELECT COUNT(*) AS c FROM "@);
    assert(s.subrange(26, 36) =~= "audit_logs"@);
    assert(s.subrange(36, 43) =~= " WHERE "@);
    let part21_leads = between(" AND "@, term_texts(outcome_count("pending"@).conditions,
        " = "@).len());
    let part21_parts = term_texts(outcome_count("pending"@).conditions, " = "@);
    assert(s.subrange(43, 43) =~= led_upto(part21_leads, part21_parts, 0));
    assert(s.subrange(43, 62) =~= Seq::<char>::empty() + ("outcome"@ + " = "@ + ("'"@
        + "pending"@ + "'"@)));
    lemma_led(s, part21_leads, part21_parts, 0, 43, 43, 62);
    assert(s.subrange(43, 62) == led(between(" AND "@,
        term_texts(outcome_count("pending"@).conditions, " = "@).len()),
        term_texts(outcome_count("pending"@).conditions, " = "@)));
    assert(s =~= s.subrange(0, 26) + s.subrange(26, 36) + (s.subrange(36, 43) + s.subrange(43,
        62)));
}

/// The columns of an audit log entry have different names.
pub proof fn lemma_entry_columns()
    ensures
        entry_columns().no_duplicates(),
{
    reveal_strlit("id");
    reveal_strlit("timestamp");
    reveal_strlit("session_id");
    reveal_strlit("server_id");
    reveal_strlit("server_host");
    reveal_strlit("source");
    reveal_strlit("tool_name");
    reveal_strlit("command");
    reveal_strlit("args");
    reveal_strlit("exit_code");
    reveal_strlit("output");
    reveal_strlit("success");
    reveal_strlit("outcome");
    reveal_strlit("approved_by");
    reveal_strlit("proposal_id");
    reveal_strlit("duration_ms");
    assert("id"@.len() == 2 && "timestamp"@.len() == 9 && "session_id"@.len() == 10
        && "server_id"@.len() == 9 && "server_host"@.len() == 11 && "source"@.len() == 6
        && "tool_name"@.len() == 9 && "command"@.len() == 7 && "args"@.len() == 4
        && "exit_code"@.len() == 9 && "output"@.len() == 6 && "success"@.len() == 7
        && "outcome"@.len() == 7 && "approved_by"@.len() == 11 && "proposal_id"@.len() == 11
        && "duration_ms"@.len() == 11);
    assert("timestamp"@[0] != "server_id"@[0]);
    assert("timestamp"@[1] != "tool_name"@[1]);
    assert("timestamp"@[0] != "exit_code"@[0]);
    assert("server_id"@[0] != "tool_name"@[0]);
    assert("server_id"@[0] != "exit_code"@[0]);
    assert("server_host"@[0] != "approved_by"@[0]);
    assert("server_host"@[0] != "proposal_id"@[0]);
    assert("server_host"@[0] != "duration_ms"@[0]);
    assert("source"@[0] != "output"@[0]);
    assert("tool_name"@[0] != "exit_code"@[0]);
    assert("command"@[0] != "success"@[0]);
    assert("command"@[0] != "outcome"@[0]);
    assert("success"@[0] != "outcome"@[0]);
    assert("approved_by"@[0] != "proposal_id"@[0]);
    assert("approved_by"@[0] != "duration_ms"@[0]);
    assert("proposal_id"@[0] != "duration_ms"@[0]);
}

/// The columns of a skill have different names.
pub proof fn lemma_skill_columns()
    ensures
        skill_columns().no_duplicates(),
{
    reveal_strlit("id");
    reveal_strlit("title");
    reveal_strlit("content");
    reveal_strlit("triggers");
    reveal_strlit("tags");
    reveal_strlit("applies_to");
    reveal_strlit("risk_level");
    reveal_strlit("enabled");
    reveal_strlit("source");
    reveal_strlit("source_doc_id");
    reveal_strlit("version");
    reveal_strlit("updated_at");
    assert("id"@.len() == 2 && "title"@.len() == 5 && "content"@.len() == 7
        && "triggers"@.len() == 8 && "tags"@.len() == 4 && "applies_to"@.len() == 10
        && "risk_level"@.len() == 10 && "enabled"@.len() == 7 && "source"@.len() == 6
        && "source_doc_id"@.len() == 13 && "version"@.len() == 7 && "updated_at"@.len() == 10);
    assert("content"@[0] != "enabled"@[0]);
    assert("content"@[0] != "version"@[0]);
    assert("applies_to"@[0] != "risk_level"@[0]);
    assert("applies_to"@[0] != "updated_at"@[0]);
    assert("risk_level"@[0] != "updated_at"@[0]);
    assert("enabled"@[0] != "version"@[0]);
}

/// The columns of a quick action have different names.
pub proof fn lemma_quick_action_columns()
    ensures
        quick_action_columns().no_duplicates(),
{
    reveal_strlit("id");
    reveal_strlit("name");
    reveal_strlit("icon");
    reveal_strlit("target");
    reveal_strlit("steps");
    reveal_strlit("approval");
    reveal_strlit("audit");
    reveal_strlit("updated_at");
    assert("id"@.len() == 2 && "name"@.len() == 4 && "icon"@.len() == 4 && "target"@.len() == 6
        && "steps"@.len() == 5 && "approval"@.len() == 8 && "audit"@.len() == 5
        && "updated_at"@.len() == 10);
    assert("name"@[0] != "icon"@[0]);
    assert("steps"@[0] != "audit"@[0]);
}

/// The columns of a document have different names.
pub proof fn lemma_doc_columns()
    ensures
        doc_columns().no_duplicates(),
{
    reveal_strlit("id");
    reveal_strlit("type");
    reveal_strlit("title");
    reveal_strlit("content");
    reveal_strlit("session_id");
    reveal_strlit("server_id");
    reveal_strlit("generated_by");
    reveal_strlit("tags");
    reveal_strlit("status");
    reveal_strlit("updated_at");
    assert("id"@.len() == 2 && "type"@.len() == 4 && "title"@.len() == 5
        && "content"@.len() == 7 && "session_id"@.len() == 10 && "server_id"@.len() == 9
        && "generated_by"@.len() == 12 && "tags"@.len() == 4 && "status"@.len() == 6
        && "updated_at"@.len() == 10);
    assert("type"@[1] != "tags"@[1]);
    assert("session_id"@[0] != "updated_at"@[0]);
}

} // verus!

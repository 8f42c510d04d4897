//! What holds of stored skills.
use vstd::prelude::*;

use crate::commands::knowledge::{conversion, skill_statement, toggle_statement};
use crate::form_texts::{
    lemma_conversion_upsert_text, lemma_delete_skill_text, lemma_get_skill_text,
    lemma_list_enabled_skills_text, lemma_list_skills_text, lemma_skill_columns,
    lemma_skill_upsert_text, lemma_toggle_update_text,
};
use crate::forms::{
    conversion_upsert, enabled_skills_select, id_delete, id_select, skill_columns, skill_upsert,
    skills_select, toggle_update,
};
use crate::models::{Doc, Skill};
use crate::queries::{DELETE_SKILL, GET_SKILL, LIST_ENABLED_SKILLS, LIST_SKILLS};
use crate::sql::{query, text_or_null, ValueView};
use crate::tables::{
    absent, ascending, cell, columns_of, has_key, lemma_answer_all, lemma_answer_none,
    lemma_answer_one, lemma_answer_rows, lemma_assigned, lemma_filter_all, lemma_filter_count,
    lemma_filter_none, lemma_upsert, meets, merged_columns, merged_values, numbered, only_at,
    parameters_upto, plus_one, stored, values_of, Cell, Key, Row, Table,
};
use crate::text::opt_text;

verus! {

/// Whether a row holds a skill.
pub open spec fn holds_skill(row: Row, skill: Skill, version: Cell) -> bool {
    &&& cell(row, "id"@) == Cell::Text(skill.id@)
    &&& cell(row, "title"@) == Cell::Text(skill.title@)
    &&& cell(row, "content"@) == Cell::Text(skill.content@)
    &&& cell(row, "triggers"@) == stored(text_or_null(opt_text(skill.triggers)))
    &&& cell(row, "tags"@) == stored(text_or_null(opt_text(skill.tags)))
    &&& cell(row, "applies_to"@) == stored(text_or_null(opt_text(skill.applies_to)))
    &&& cell(row, "risk_level"@) == Cell::Text(skill.risk_level@)
    &&& cell(row, "enabled"@) == stored(ValueView::Boolean(skill.enabled))
    &&& cell(row, "source"@) == Cell::Text(skill.source@)
    &&& cell(row, "source_doc_id"@) == stored(text_or_null(opt_text(skill.source_doc_id)))
    &&& cell(row, "version"@) == version
}

/// The skills after a skill was stored at the time `now`.
pub open spec fn skill_stored(skills: Table, skill: Skill, now: Seq<char>, defaults: Row) -> Table {
    skill_upsert().after(skills, skill_statement(skill).binds, now, defaults)
}

/// The row that is offered for a skill, and what becomes of a stored row with its id.
proof fn lemma_skill_rows(skill: Skill, row: Row, now: Seq<char>, defaults: Row)
    ensures
        ({
            let binds = skill_statement(skill).binds;
            let offered = skill_upsert().insert.offered(binds, now, defaults);
            let merged = skill_upsert().merged(row, offered, now);
            &&& holds_skill(offered, skill, Cell::Integer(skill.version as int))
            &&& has_key(row, skill.id@)
                ==> holds_skill(merged, skill, plus_one(Cell::Integer(skill.version as int)))
            &&& cell(merged, "updated_at"@) == Cell::Text(now)
            &&& forall|column: Seq<char>|
                !skill_columns().contains(column) ==> #[trigger] cell(merged, column) == cell(
                    row,
                    column,
                )
        }),
{
    let form = skill_upsert();
    let binds = skill_statement(skill).binds;
    let names = skill_columns();
    let columns = columns_of(form.insert.terms);
    let values = values_of(form.insert.terms, binds, now);
    let offered = form.insert.offered(binds, now, defaults);
    lemma_skill_columns();
    assert(columns =~= names.take(11));
    assert forall|i: int, j: int| 0 <= i < j < columns.len() implies columns[i] != columns[j] by {
        assert(columns[i] == names[i] && columns[j] == names[j]);
    }
    lemma_assigned(defaults, columns, values);
    assert(columns[0] == "id"@ && values[0] == stored(binds[0]));
    assert(columns[1] == "title"@ && values[1] == stored(binds[1]));
    assert(columns[2] == "content"@ && values[2] == stored(binds[2]));
    assert(columns[3] == "triggers"@ && values[3] == stored(binds[3]));
    assert(columns[4] == "tags"@ && values[4] == stored(binds[4]));
    assert(columns[5] == "applies_to"@ && values[5] == stored(binds[5]));
    assert(columns[6] == "risk_level"@ && values[6] == stored(binds[6]));
    assert(columns[7] == "enabled"@ && values[7] == stored(binds[7]));
    assert(columns[8] == "source"@ && values[8] == stored(binds[8]));
    assert(columns[9] == "source_doc_id"@ && values[9] == stored(binds[9]));
    assert(columns[10] == "version"@ && values[10] == stored(binds[10]));
    assert(holds_skill(offered, skill, Cell::Integer(skill.version as int)));
    let changed = merged_columns(form.merges);
    let results = merged_values(form.merges, row, offered, now);
    assert(changed =~= names.skip(1));
    assert forall|i: int, j: int| 0 <= i < j < changed.len() implies changed[i] != changed[j] by {
        assert(changed[i] == names[i + 1] && changed[j] == names[j + 1]);
    }
    lemma_assigned(row, changed, results);
    let merged = form.merged(row, offered, now);
    assert(!changed.contains("id"@)) by {
        assert(names[0] == "id"@);
        assert forall|i: int| 0 <= i < changed.len() implies changed[i] != "id"@ by {
            assert(changed[i] == names[i + 1]);
        }
    }
    assert(cell(merged, "id"@) == cell(row, "id"@));
    assert(changed[0] == "title"@ && cell(merged, changed[0]) == results[0]);
    assert(changed[1] == "content"@ && cell(merged, changed[1]) == results[1]);
    assert(changed[2] == "triggers"@ && cell(merged, changed[2]) == results[2]);
    assert(changed[3] == "tags"@ && cell(merged, changed[3]) == results[3]);
    assert(changed[4] == "applies_to"@ && cell(merged, changed[4]) == results[4]);
    assert(changed[5] == "risk_level"@ && cell(merged, changed[5]) == results[5]);
    assert(changed[6] == "enabled"@ && cell(merged, changed[6]) == results[6]);
    assert(changed[7] == "source"@ && cell(merged, changed[7]) == results[7]);
    assert(changed[8] == "source_doc_id"@ && cell(merged, changed[8]) == results[8]);
    assert(changed[9] == "version"@ && cell(merged, changed[9]) == results[9]);
    assert(changed[10] == "updated_at"@ && cell(merged, changed[10]) == results[10]);
    assert forall|column: Seq<char>| !names.contains(column) implies #[trigger] cell(merged, column)
        == cell(row, column) by {
        assert forall|i: int| 0 <= i < changed.len() implies changed[i] != column by {
            assert(changed[i] == names[i + 1]);
        }
    }
}

/// Storing a skill keeps what was given. A skill under a new id has the version that was given; one
/// under a known id has one more, and of its other columns only the time of the change is set anew.
/// No other skill is changed.
pub proof fn law_stored_skill_is_kept(skills: Table, skill: Skill, now: Seq<char>, defaults: Row)
    ensures
        skill_statement(skill) == skill_upsert().statement(skill_statement(skill).binds),
        numbered(skill_upsert().insert.terms),
        ({
            let after = skill_stored(skills, skill, now, defaults);
            &&& absent(skills, skill.id@) ==> {
                &&& after == skills.push(after.last())
                &&& holds_skill(after.last(), skill, Cell::Integer(skill.version as int))
            }
            &&& !absent(skills, skill.id@) ==> after.len() == skills.len()
            &&& forall|i: int|
                0 <= i < skills.len() && has_key(#[trigger] skills[i], skill.id@)
                    ==> holds_skill(after[i], skill, plus_one(Cell::Integer(skill.version as int)))
                    && cell(after[i], "updated_at"@) == Cell::Text(now)
            &&& forall|i: int, column: Seq<char>|
                0 <= i < skills.len() && !skill_columns().contains(column) ==> #[trigger] cell(
                    after[i],
                    column,
                ) == cell(skills[i], column)
            &&& forall|i: int|
                0 <= i < skills.len() && !has_key(#[trigger] skills[i], skill.id@) ==> after[i]
                    == skills[i]
        }),
{
    let binds = skill_statement(skill).binds;
    let after = skill_stored(skills, skill, now, defaults);
    lemma_skill_upsert_text();
    reveal_with_fuel(parameters_upto, 12);
    lemma_skill_rows(skill, defaults, now, defaults);
    lemma_upsert(skill_upsert(), skills, binds, now, defaults, skill.id@);
    assert forall|i: int| 0 <= i < skills.len() && has_key(
        #[trigger] skills[i],
        skill.id@,
    ) implies holds_skill(after[i], skill, plus_one(Cell::Integer(skill.version as int)))
        && cell(after[i], "updated_at"@) == Cell::Text(
        now,
    ) by {
        assert(!absent(skills, skill.id@));
        lemma_skill_rows(skill, skills[i], now, defaults);
        assert(after[i] == skill_upsert().merged(
            skills[i],
            skill_upsert().insert.offered(binds, now, defaults),
            now,
        ));
    }
    assert forall|i: int, column: Seq<char>|
        0 <= i < skills.len() && !skill_columns().contains(column) implies #[trigger] cell(
        after[i],
        column,
    ) == cell(skills[i], column) by {
        lemma_skill_rows(skill, skills[i], now, defaults);
        assert(absent(skills, skill.id@) ==> after[i] == skills[i]);
    }
}

/// The statement that looks up a skill asks for the row with its id.
proof fn lemma_skill_lookup(id: Seq<char>)
    ensures
        query(GET_SKILL@).bind(ValueView::Text(id)) == id_select("*"@, "skills"@).statement(
            seq![ValueView::Text(id)],
        ),
        forall|row: Row| #[trigger]
            id_select("*"@, "skills"@).wants(row, seq![ValueView::Text(id)]) <==> has_key(row, id),
{
    let binds = seq![ValueView::Text(id)];
    lemma_get_skill_text();
    assert(query(GET_SKILL@).bind(ValueView::Text(id)).binds =~= binds);
    assert(id_select("*"@, "skills"@).conditions[0].expr.value(binds, seq![]) == Cell::Text(id));
}

/// Looking up a skill gives the row with its id, and nothing when there is none.
pub proof fn law_skill_is_looked_up_by_id(
    skills: Table,
    id: Seq<char>,
    datetime: spec_fn(Cell) -> Cell,
    rows: Seq<Row>,
)
    requires
        id_select("*"@, "skills"@).answers(skills, seq![ValueView::Text(id)], datetime, rows),
    ensures
        query(GET_SKILL@).bind(ValueView::Text(id)) == id_select("*"@, "skills"@).statement(
            seq![ValueView::Text(id)],
        ),
        absent(skills, id) <==> rows.len() == 0,
        forall|k: int| #[trigger] only_at(skills, k, id) ==> rows == seq![skills[k]],
{
    let binds = seq![ValueView::Text(id)];
    let select = id_select("*"@, "skills"@);
    lemma_skill_lookup(id);
    lemma_answer_rows(select, skills, binds, datetime, rows);
    if absent(skills, id) {
        lemma_answer_none(select, skills, binds, datetime, rows);
    } else {
        let i = choose|i: int| 0 <= i < skills.len() && has_key(#[trigger] skills[i], id);
        assert(skills.contains(skills[i]));
        assert(rows.contains(skills[i]));
    }
    assert forall|k: int| #[trigger] only_at(skills, k, id) implies rows == seq![skills[k]] by {
        lemma_answer_one(select, skills, binds, datetime, rows, k);
    }
}

/// A skill that was stored is found under its id, as it was given. Before, there was no other row
/// or the one at index `k` with that id.
pub proof fn law_stored_skill_is_found(
    skills: Table,
    skill: Skill,
    now: Seq<char>,
    defaults: Row,
    k: int,
    datetime: spec_fn(Cell) -> Cell,
    rows: Seq<Row>,
)
    requires
        absent(skills, skill.id@) || only_at(skills, k, skill.id@),
        id_select("*"@, "skills"@).answers(
            skill_stored(skills, skill, now, defaults),
            seq![ValueView::Text(skill.id@)],
            datetime,
            rows,
        ),
    ensures
        rows.len() == 1,
        absent(skills, skill.id@)
            ==> holds_skill(rows[0], skill, Cell::Integer(skill.version as int)),
        only_at(skills, k, skill.id@)
            ==> holds_skill(rows[0], skill, plus_one(Cell::Integer(skill.version as int))),
{
    let after = skill_stored(skills, skill, now, defaults);
    law_stored_skill_is_kept(skills, skill, now, defaults);
    law_skill_is_looked_up_by_id(after, skill.id@, datetime, rows);
    assert(only_at(skills, k, skill.id@) ==> has_key(skills[k], skill.id@));
    if absent(skills, skill.id@) {
        assert(only_at(after, skills.len() as int, skill.id@));
    } else {
        assert forall|i: int| 0 <= i < after.len() implies (has_key(
            #[trigger] after[i],
            skill.id@,
        ) <==> i == k) by {
            assert(has_key(skills[i], skill.id@) <==> i == k);
        }
        assert(only_at(after, k, skill.id@));
    }
}

/// The skills after the one with an id was deleted.
pub open spec fn skill_deleted(skills: Table, id: Seq<char>) -> Table {
    id_delete("skills"@).after(skills, seq![ValueView::Text(id)], seq![])
}

/// Deleting a skill removes the row with its id and keeps all others, in their order. It is not
/// found afterwards.
pub proof fn law_deleted_skill_is_gone(
    skills: Table,
    id: Seq<char>,
    datetime: spec_fn(Cell) -> Cell,
    rows: Seq<Row>,
)
    requires
        id_select("*"@, "skills"@).answers(
            skill_deleted(skills, id),
            seq![ValueView::Text(id)],
            datetime,
            rows,
        ),
    ensures
        query(DELETE_SKILL@).bind(ValueView::Text(id)) == id_delete("skills"@).statement(
            seq![ValueView::Text(id)],
        ),
        absent(skill_deleted(skills, id), id),
        skill_deleted(skills, id) == skills.filter(|row: Row| !has_key(row, id)),
        absent(skills, id) ==> skill_deleted(skills, id) == skills,
        rows.len() == 0,
{
    let binds = seq![ValueView::Text(id)];
    let after = skill_deleted(skills, id);
    let form = id_delete("skills"@);
    let others = |row: Row| !has_key(row, id);
    let kept = |row: Row| !meets(row, form.conditions, binds, seq![]);
    lemma_delete_skill_text();
    assert(query(DELETE_SKILL@).bind(ValueView::Text(id)).binds =~= binds);
    assert(form.conditions[0].expr.value(binds, seq![]) == Cell::Text(id));
    assert(kept =~= others);
    assert forall|i: int| 0 <= i < after.len() implies !has_key(#[trigger] after[i], id) by {
        skills.lemma_filter_pred(others, i);
    }
    if absent(skills, id) {
        lemma_filter_all(skills, others);
    }
    law_skill_is_looked_up_by_id(after, id, datetime, rows);
}

/// The skills after a document was turned into one of them at the time `now`.
pub open spec fn skill_converted(
    skills: Table,
    doc_id: Seq<char>,
    skill_id: Seq<char>,
    title: Seq<char>,
    doc: Doc,
    now: Seq<char>,
    defaults: Row,
) -> Table {
    conversion_upsert().after(skills, conversion(doc_id, skill_id, title, doc).binds, now, defaults)
}

/// Whether a row holds what a skill takes from a document. Such a skill is disabled.
pub open spec fn holds_conversion(
    row: Row,
    doc_id: Seq<char>,
    skill_id: Seq<char>,
    title: Seq<char>,
    doc: Doc,
) -> bool {
    &&& has_key(row, skill_id)
    &&& cell(row, "title"@) == Cell::Text(title)
    &&& cell(row, "content"@) == Cell::Text(doc.content@)
    &&& cell(row, "tags"@) == stored(text_or_null(opt_text(doc.tags)))
    &&& cell(row, "source_doc_id"@) == Cell::Text(doc_id)
    &&& cell(row, "enabled"@) == Cell::Integer(0)
}

/// Whether a conversion leaves a column of a known skill as it is.
pub open spec fn is_kept_by_conversion(column: Seq<char>) -> bool {
    column != "title"@ && column != "content"@ && column != "tags"@ && column != "source_doc_id"@
        && column != "enabled"@ && column != "version"@ && column != "updated_at"@
}

/// The row that is offered for a conversion, and what becomes of a stored row with its id.
proof fn lemma_conversion_rows(
    doc_id: Seq<char>,
    skill_id: Seq<char>,
    title: Seq<char>,
    doc: Doc,
    row: Row,
    now: Seq<char>,
    defaults: Row,
)
    ensures
        ({
            let binds = conversion(doc_id, skill_id, title, doc).binds;
            let offered = conversion_upsert().insert.offered(binds, now, defaults);
            let merged = conversion_upsert().merged(row, offered, now);
            &&& holds_conversion(offered, doc_id, skill_id, title, doc)
            &&& cell(offered, "version"@) == Cell::Integer(1)
            &&& cell(offered, "triggers"@) is Null
            &&& cell(offered, "applies_to"@) is Null
            &&& cell(offered, "risk_level"@) == Cell::Text("low"@)
            &&& cell(offered, "source"@) == Cell::Text("from_doc"@)
            &&& has_key(row, skill_id) ==> holds_conversion(merged, doc_id, skill_id, title, doc)
            &&& cell(merged, "version"@) == plus_one(cell(row, "version"@))
            &&& forall|column: Seq<char>|
                is_kept_by_conversion(column) ==> #[trigger] cell(merged, column) == cell(
                    row,
                    column,
                )
        }),
{
    let form = conversion_upsert();
    let binds = conversion(doc_id, skill_id, title, doc).binds;
    let names = skill_columns();
    let columns = columns_of(form.insert.terms);
    let values = values_of(form.insert.terms, binds, now);
    let offered = form.insert.offered(binds, now, defaults);
    lemma_skill_columns();
    assert(columns =~= names.take(11));
    assert forall|i: int, j: int| 0 <= i < j < columns.len() implies columns[i] != columns[j] by {
        assert(columns[i] == names[i] && columns[j] == names[j]);
    }
    lemma_assigned(defaults, columns, values);
    assert(columns[0] == "id"@ && values[0] == stored(binds[0]));
    assert(columns[1] == "title"@ && values[1] == stored(binds[1]));
    assert(columns[2] == "content"@ && values[2] == stored(binds[2]));
    assert(columns[3] == "triggers"@ && values[3] is Null);
    assert(columns[4] == "tags"@ && values[4] == stored(binds[3]));
    assert(columns[5] == "applies_to"@ && values[5] is Null);
    assert(columns[6] == "risk_level"@ && values[6] == Cell::Text("low"@));
    assert(columns[7] == "enabled"@ && values[7] == Cell::Integer(0));
    assert(columns[8] == "source"@ && values[8] == Cell::Text("from_doc"@));
    assert(columns[9] == "source_doc_id"@ && values[9] == stored(binds[4]));
    assert(columns[10] == "version"@ && values[10] == Cell::Integer(1));
    let changed = merged_columns(form.merges);
    let results = merged_values(form.merges, row, offered, now);
    assert(names[0] == "id"@ && names[1] == "title"@ && names[2] == "content"@ && names[4]
        == "tags"@ && names[7] == "enabled"@ && names[9] == "source_doc_id"@ && names[10]
        == "version"@ && names[11] == "updated_at"@);
    assert(changed =~= seq![
        "title"@,
        "content"@,
        "tags"@,
        "source_doc_id"@,
        "enabled"@,
        "version"@,
        "updated_at"@,
    ]);
    assert(changed.no_duplicates());
    lemma_assigned(row, changed, results);
    let merged = form.merged(row, offered, now);
    assert forall|column: Seq<char>| is_kept_by_conversion(column) implies #[trigger] cell(
        merged,
        column,
    ) == cell(row, column) by {
        assert(!changed.contains(column));
    }
    assert(is_kept_by_conversion("id"@));
    assert(cell(merged, "id"@) == cell(row, "id"@));
    assert(changed[0] == "title"@ && cell(merged, changed[0]) == results[0]);
    assert(changed[1] == "content"@ && cell(merged, changed[1]) == results[1]);
    assert(changed[2] == "tags"@ && cell(merged, changed[2]) == results[2]);
    assert(changed[3] == "source_doc_id"@ && cell(merged, changed[3]) == results[3]);
    assert(changed[4] == "enabled"@ && cell(merged, changed[4]) == results[4]);
    assert(changed[5] == "version"@ && cell(merged, changed[5]) == results[5]);
}

/// A document that becomes a skill gives it its content and its tags; the skill is disabled,
/// whatever it was before. A new one starts with version 1, low risk, no triggers and no scope. Of
/// a known one the version goes up by one, and triggers, scope, risk and source stay. No other
/// skill is changed.
pub proof fn law_converted_skill_is_disabled(
    skills: Table,
    doc_id: Seq<char>,
    skill_id: Seq<char>,
    title: Seq<char>,
    doc: Doc,
    now: Seq<char>,
    defaults: Row,
)
    ensures
        conversion(doc_id, skill_id, title, doc) == conversion_upsert().statement(
            conversion(doc_id, skill_id, title, doc).binds,
        ),
        numbered(conversion_upsert().insert.terms),
        ({
            let after = skill_converted(skills, doc_id, skill_id, title, doc, now, defaults);
            &&& absent(skills, skill_id) ==> {
                let row = after.last();
                &&& after == skills.push(row)
                &&& holds_conversion(row, doc_id, skill_id, title, doc)
                &&& cell(row, "version"@) == Cell::Integer(1)
                &&& cell(row, "triggers"@) is Null
                &&& cell(row, "applies_to"@) is Null
                &&& cell(row, "risk_level"@) == Cell::Text("low"@)
                &&& cell(row, "source"@) == Cell::Text("from_doc"@)
            }
            &&& !absent(skills, skill_id) ==> after.len() == skills.len()
            &&& forall|i: int|
                0 <= i < skills.len() && has_key(#[trigger] skills[i], skill_id) ==> {
                    &&& holds_conversion(after[i], doc_id, skill_id, title, doc)
                    &&& cell(after[i], "version"@) == plus_one(cell(skills[i], "version"@))
                }
            &&& forall|i: int, column: Seq<char>|
                0 <= i < skills.len() && is_kept_by_conversion(column) ==> #[trigger] cell(
                    after[i],
                    column,
                ) == cell(skills[i], column)
            &&& forall|i: int|
                0 <= i < skills.len() && !has_key(#[trigger] skills[i], skill_id) ==> after[i]
                    == skills[i]
        }),
{
    let binds = conversion(doc_id, skill_id, title, doc).binds;
    let after = skill_converted(skills, doc_id, skill_id, title, doc, now, defaults);
    let offered = conversion_upsert().insert.offered(binds, now, defaults);
    lemma_conversion_upsert_text();
    reveal_with_fuel(parameters_upto, 12);
    lemma_conversion_rows(doc_id, skill_id, title, doc, defaults, now, defaults);
    lemma_upsert(conversion_upsert(), skills, binds, now, defaults, skill_id);
    assert forall|i: int| 0 <= i < skills.len() && has_key(#[trigger] skills[i], skill_id) implies {
        &&& holds_conversion(after[i], doc_id, skill_id, title, doc)
        &&& cell(after[i], "version"@) == plus_one(cell(skills[i], "version"@))
    } by {
        assert(!absent(skills, skill_id));
        lemma_conversion_rows(doc_id, skill_id, title, doc, skills[i], now, defaults);
        assert(after[i] == conversion_upsert().merged(skills[i], offered, now));
    }
    assert forall|i: int, column: Seq<char>|
        0 <= i < skills.len() && is_kept_by_conversion(column) implies #[trigger] cell(
        after[i],
        column,
    ) == cell(skills[i], column) by {
        lemma_conversion_rows(doc_id, skill_id, title, doc, skills[i], now, defaults);
        assert(absent(skills, skill_id) ==> after[i] == skills[i]);
    }
}

/// Whether a skill is enabled.
pub open spec fn is_enabled(skill: Row) -> bool {
    cell(skill, "enabled"@) == Cell::Integer(1)
}

/// The skills after one was enabled or disabled at the time `now`.
pub open spec fn toggled(skills: Table, id: Seq<char>, enabled: bool, now: Seq<char>) -> Table {
    toggle_update().after(skills, toggle_statement(id, enabled).binds, now)
}

/// What enabling or disabling a skill does to one row.
proof fn lemma_row_toggled(skill: Row, id: Seq<char>, enabled: bool, now: Seq<char>)
    ensures
        ({
            let binds = toggle_statement(id, enabled).binds;
            let next = toggle_update().row_after(skill, binds, now);
            &&& toggle_update().applies(skill, binds, now) <==> has_key(skill, id)
            &&& has_key(next, id) <==> has_key(skill, id)
            &&& has_key(skill, id) ==> (is_enabled(next) <==> enabled)
            &&& !has_key(skill, id) ==> next == skill
            &&& forall|c: Seq<char>|
                c != "enabled"@ && c != "updated_at"@ ==> #[trigger] cell(next, c) == cell(
                    skill,
                    c,
                )
        }),
{
    let u = toggle_update();
    let binds = toggle_statement(id, enabled).binds;
    let columns = columns_of(u.assignments);
    let values = values_of(u.assignments, binds, now);
    let names = skill_columns();
    lemma_skill_columns();
    assert(names[0] == "id"@ && names[7] == "enabled"@ && names[11] == "updated_at"@);
    assert(columns =~= seq!["enabled"@, "updated_at"@]);
    assert(columns.no_duplicates());
    assert(u.conditions[0].expr.value(binds, now) == Cell::Text(id));
    lemma_assigned(skill, columns, values);
    assert(columns[0] == "enabled"@ && values[0] == stored(binds[0]));
    let next = u.row_after(skill, binds, now);
    assert forall|c: Seq<char>| c != "enabled"@ && c != "updated_at"@ implies #[trigger] cell(
        next,
        c,
    ) == cell(skill, c) by {
        assert(!columns.contains(c));
    }
    assert(cell(next, "id"@) == cell(skill, "id"@));
}

/// Enabling or disabling a skill changes no other skill, and of that skill nothing but whether it
/// is enabled and when it was changed. Where there is no such skill, nothing is changed.
pub proof fn law_toggle_changes_one_skill(
    skills: Table,
    id: Seq<char>,
    enabled: bool,
    now: Seq<char>,
)
    ensures
        toggle_statement(id, enabled) == toggle_update().statement(
            toggle_statement(id, enabled).binds,
        ),
        numbered(toggle_update().assignments + toggle_update().conditions),
        ({
            let after = toggled(skills, id, enabled, now);
            &&& after.len() == skills.len()
            &&& forall|i: int|
                0 <= i < skills.len() && !has_key(#[trigger] skills[i], id) ==> after[i]
                    == skills[i]
            &&& forall|i: int|
                0 <= i < skills.len() && has_key(#[trigger] skills[i], id) ==> has_key(
                    after[i],
                    id,
                ) && (is_enabled(after[i]) <==> enabled)
            &&& forall|i: int, c: Seq<char>|
                0 <= i < skills.len() && c != "enabled"@ && c != "updated_at"@ ==> #[trigger] cell(
                    after[i],
                    c,
                ) == cell(skills[i], c)
            &&& (forall|i: int| 0 <= i < skills.len() ==> !has_key(#[trigger] skills[i], id)) ==> {
                &&& after == skills
                &&& toggle_update().changed(skills, toggle_statement(id, enabled).binds, now) == 0
            }
        }),
{
    let after = toggled(skills, id, enabled, now);
    let binds = toggle_statement(id, enabled).binds;
    lemma_toggle_update_text();
    reveal_with_fuel(parameters_upto, 4);
    assert forall|i: int| 0 <= i < skills.len() implies {
        &&& !has_key(#[trigger] skills[i], id) ==> after[i] == skills[i]
            && !toggle_update().applies(skills[i], binds, now)
        &&& has_key(skills[i], id) ==> has_key(after[i], id) && (is_enabled(after[i])
            <==> enabled)
    } by {
        lemma_row_toggled(skills[i], id, enabled, now);
    }
    assert forall|i: int, c: Seq<char>|
        0 <= i < skills.len() && c != "enabled"@ && c != "updated_at"@ implies #[trigger] cell(
        after[i],
        c,
    ) == cell(skills[i], c) by {
        lemma_row_toggled(skills[i], id, enabled, now);
    }
    if forall|i: int| 0 <= i < skills.len() ==> !has_key(#[trigger] skills[i], id) {
        assert(after =~= skills);
        lemma_filter_none(skills, |row: Row| toggle_update().applies(row, binds, now));
    }
}

/// The enabled skills are listed: those among all skills, each once, by title.
pub proof fn law_enabled_skills_are_listed(
    skills: Table,
    datetime: spec_fn(Cell) -> Cell,
    all: Seq<Row>,
    listed: Seq<Row>,
)
    requires
        skills_select().answers(skills, seq![], datetime, all),
        enabled_skills_select().answers(skills, seq![], datetime, listed),
    ensures
        query(LIST_SKILLS@) == skills_select().statement(seq![]),
        query(LIST_ENABLED_SKILLS@) == enabled_skills_select().statement(seq![]),
        all.to_multiset() == skills.to_multiset(),
        listed.to_multiset() == all.filter(|row: Row| is_enabled(row)).to_multiset(),
        ascending(all, Key::Column("title"@), datetime),
        ascending(listed, Key::Column("title"@), datetime),
        forall|row: Row| #[trigger] listed.contains(row) <==> skills.contains(row)
            && is_enabled(row),
{
    let select = enabled_skills_select();
    let enabled = |row: Row| is_enabled(row);
    lemma_list_skills_text();
    lemma_list_enabled_skills_text();
    lemma_answer_all(skills_select(), skills, seq![], datetime, all);
    lemma_answer_rows(select, skills, seq![], datetime, listed);
    assert forall|row: Row| #[trigger] select.wants(row, seq![]) <==> is_enabled(row) by {
        assert(select.conditions[0].expr.value(seq![], seq![]) == Cell::Integer(1));
    }
    assert forall|row: Row| #[trigger]
        listed.to_multiset().count(row) == all.filter(enabled).to_multiset().count(row) by {
        lemma_filter_count(all, enabled, row);
    }
    assert(listed.to_multiset() =~= all.filter(enabled).to_multiset());
}

/// Once a skill was enabled or disabled, the enabled skills that are listed are those among all
/// skills, each once, by title. The skill is among them exactly when it was enabled, and every
/// other skill exactly when it was enabled before.
pub proof fn law_toggled_skill_is_listed_when_enabled(
    skills: Table,
    id: Seq<char>,
    enabled: bool,
    then: Seq<char>,
    datetime: spec_fn(Cell) -> Cell,
    all: Seq<Row>,
    listed: Seq<Row>,
)
    requires
        skills_select().answers(toggled(skills, id, enabled, then), seq![], datetime, all),
        enabled_skills_select().answers(toggled(skills, id, enabled, then), seq![], datetime,
            listed),
    ensures
        listed.to_multiset() == all.filter(|row: Row| is_enabled(row)).to_multiset(),
        ascending(listed, Key::Column("title"@), datetime),
        forall|i: int|
            0 <= i < skills.len() ==> (listed.contains(
                #[trigger] toggled(skills, id, enabled, then)[i],
            ) <==> if has_key(skills[i], id) {
                enabled
            } else {
                is_enabled(skills[i])
            }),
        forall|row: Row| #[trigger] listed.contains(row) && has_key(row, id) ==> enabled,
{
    let after = toggled(skills, id, enabled, then);
    law_toggle_changes_one_skill(skills, id, enabled, then);
    law_enabled_skills_are_listed(after, datetime, all, listed);
    assert forall|i: int| 0 <= i < skills.len() implies (listed.contains(#[trigger] after[i])
        <==> if has_key(skills[i], id) {
        enabled
    } else {
        is_enabled(skills[i])
    }) by {
        assert(after.contains(after[i]));
    }
    assert forall|row: Row| #[trigger] listed.contains(row) && has_key(row, id) implies enabled by {
        let i = choose|i: int| 0 <= i < after.len() && after[i] == row;
        lemma_row_toggled(skills[i], id, enabled, then);
    }
}

} // verus!

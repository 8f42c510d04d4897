//! What holds of stored documents.
use vstd::prelude::*;

use crate::commands::knowledge::{doc_statement, status_statement};
use crate::form_texts::{
    lemma_delete_doc_text, lemma_doc_columns, lemma_doc_upsert_text, lemma_get_doc_text,
    lemma_list_docs_text, lemma_status_update_text,
};
use crate::forms::{doc_columns, doc_upsert, docs_select, id_delete, id_select, status_update};
use crate::models::Doc;
use crate::queries::{DELETE_DOC, GET_DOC, LIST_DOCS};
use crate::sql::{integer_or_null, query, text_or_null, ValueView};
use crate::tables::{
    absent, cell, columns_of, descending, has_key, lemma_answer_all, lemma_answer_none,
    lemma_answer_one, lemma_answer_rows, lemma_assigned, lemma_filter_all, lemma_upsert, meets,
    merged_columns, merged_values, numbered, only_at, parameters_upto, stored, values_of, Cell, Key,
    Row, Table,
};
use crate::text::opt_text;

verus! {

/// Whether a row holds a document.
pub open spec fn holds_doc(row: Row, doc: Doc) -> bool {
    &&& cell(row, "id"@) == Cell::Text(doc.id@)
    &&& cell(row, "type"@) == Cell::Text(doc.doc_type@)
    &&& cell(row, "title"@) == Cell::Text(doc.title@)
    &&& cell(row, "content"@) == Cell::Text(doc.content@)
    &&& cell(row, "session_id"@) == stored(text_or_null(opt_text(doc.session_id)))
    &&& cell(row, "server_id"@) == stored(integer_or_null(doc.server_id))
    &&& cell(row, "generated_by"@) == stored(text_or_null(opt_text(doc.generated_by)))
    &&& cell(row, "tags"@) == stored(text_or_null(opt_text(doc.tags)))
    &&& cell(row, "status"@) == Cell::Text(doc.status@)
}

/// The documents after a document was stored at the time `now`.
pub open spec fn doc_stored(docs: Table, doc: Doc, now: Seq<char>, defaults: Row) -> Table {
    doc_upsert().after(docs, doc_statement(doc).binds, now, defaults)
}

/// The row that is offered for a document, and what becomes of a stored row with its id.
proof fn lemma_doc_rows(doc: Doc, row: Row, now: Seq<char>, defaults: Row)
    ensures
        ({
            let binds = doc_statement(doc).binds;
            let offered = doc_upsert().insert.offered(binds, now, defaults);
            let merged = doc_upsert().merged(row, offered, now);
            &&& holds_doc(offered, doc)
            &&& has_key(row, doc.id@) ==> holds_doc(merged, doc)
            &&& cell(merged, "updated_at"@) == Cell::Text(now)
            &&& forall|column: Seq<char>|
                !doc_columns().contains(column) ==> #[trigger] cell(merged, column) == cell(
                    row,
                    column,
                )
        }),
{
    let form = doc_upsert();
    let binds = doc_statement(doc).binds;
    let names = doc_columns();
    let columns = columns_of(form.insert.terms);
    let values = values_of(form.insert.terms, binds, now);
    let offered = form.insert.offered(binds, now, defaults);
    lemma_doc_columns();
    assert(columns =~= names.take(9));
    assert forall|i: int, j: int| 0 <= i < j < columns.len() implies columns[i] != columns[j] by {
        assert(columns[i] == names[i] && columns[j] == names[j]);
    }
    lemma_assigned(defaults, columns, values);
    assert(columns[0] == "id"@ && values[0] == stored(binds[0]));
    assert(columns[1] == "type"@ && values[1] == stored(binds[1]));
    assert(columns[2] == "title"@ && values[2] == stored(binds[2]));
    assert(columns[3] == "content"@ && values[3] == stored(binds[3]));
    assert(columns[4] == "session_id"@ && values[4] == stored(binds[4]));
    assert(columns[5] == "server_id"@ && values[5] == stored(binds[5]));
    assert(columns[6] == "generated_by"@ && values[6] == stored(binds[6]));
    assert(columns[7] == "tags"@ && values[7] == stored(binds[7]));
    assert(columns[8] == "status"@ && values[8] == stored(binds[8]));
    assert(holds_doc(offered, doc));
    let changed = merged_columns(form.merges);
    let results = merged_values(form.merges, row, offered, now);
    assert(changed =~= names.skip(1));
    assert forall|i: int, j: int| 0 <= i < j < changed.len() implies changed[i] != changed[j] by {
        assert(changed[i] == names[i + 1] && changed[j] == names[j + 1]);
    }
    lemma_assigned(row, changed, results);
    let merged = form.merged(row, offered, now);
    assert(!changed.contains("id"@)) by {
        assert(names[0] == "id"@);
        assert forall|i: int| 0 <= i < changed.len() implies changed[i] != "id"@ by {
            assert(changed[i] == names[i + 1]);
        }
    }
    assert(cell(merged, "id"@) == cell(row, "id"@));
    assert(changed[0] == "type"@ && cell(merged, changed[0]) == results[0]);
    assert(changed[1] == "title"@ && cell(merged, changed[1]) == results[1]);
    assert(changed[2] == "content"@ && cell(merged, changed[2]) == results[2]);
    assert(changed[3] == "session_id"@ && cell(merged, changed[3]) == results[3]);
    assert(changed[4] == "server_id"@ && cell(merged, changed[4]) == results[4]);
    assert(changed[5] == "generated_by"@ && cell(merged, changed[5]) == results[5]);
    assert(changed[6] == "tags"@ && cell(merged, changed[6]) == results[6]);
    assert(changed[7] == "status"@ && cell(merged, changed[7]) == results[7]);
    assert(changed[8] == "updated_at"@ && cell(merged, changed[8]) == results[8]);
    assert forall|column: Seq<char>| !names.contains(column) implies #[trigger] cell(merged, column)
        == cell(row, column) by {
        assert forall|i: int| 0 <= i < changed.len() implies changed[i] != column by {
            assert(changed[i] == names[i + 1]);
        }
    }
}

/// Storing a document keeps what was given. Of a document under a known id only the time of the
/// change is set anew besides. No other document is changed.
pub proof fn law_stored_doc_is_kept(docs: Table, doc: Doc, now: Seq<char>, defaults: Row)
    ensures
        doc_statement(doc) == doc_upsert().statement(doc_statement(doc).binds),
        numbered(doc_upsert().insert.terms),
        ({
            let after = doc_stored(docs, doc, now, defaults);
            &&& absent(docs, doc.id@) ==> {
                &&& after == docs.push(after.last())
                &&& holds_doc(after.last(), doc)
            }
            &&& !absent(docs, doc.id@) ==> after.len() == docs.len()
            &&& forall|i: int|
                0 <= i < docs.len() && has_key(#[trigger] docs[i], doc.id@)
                    ==> holds_doc(after[i], doc)
                    && cell(after[i], "updated_at"@) == Cell::Text(now)
            &&& forall|i: int, column: Seq<char>|
                0 <= i < docs.len() && !doc_columns().contains(column) ==> #[trigger] cell(
                    after[i],
                    column,
                ) == cell(docs[i], column)
            &&& forall|i: int|
                0 <= i < docs.len() && !has_key(#[trigger] docs[i], doc.id@) ==> after[i]
                    == docs[i]
        }),
{
    let binds = doc_statement(doc).binds;
    let after = doc_stored(docs, doc, now, defaults);
    lemma_doc_upsert_text();
    reveal_with_fuel(parameters_upto, 10);
    lemma_doc_rows(doc, defaults, now, defaults);
    lemma_upsert(doc_upsert(), docs, binds, now, defaults, doc.id@);
    assert forall|i: int| 0 <= i < docs.len() && has_key(
        #[trigger] docs[i],
        doc.id@,
    ) implies holds_doc(after[i], doc) && cell(after[i], "updated_at"@) == Cell::Text(
        now,
    ) by {
        assert(!absent(docs, doc.id@));
        lemma_doc_rows(doc, docs[i], now, defaults);
        assert(after[i] == doc_upsert().merged(
            docs[i],
            doc_upsert().insert.offered(binds, now, defaults),
            now,
        ));
    }
    assert forall|i: int, column: Seq<char>|
        0 <= i < docs.len() && !doc_columns().contains(column) implies #[trigger] cell(
        after[i],
        column,
    ) == cell(docs[i], column) by {
        lemma_doc_rows(doc, docs[i], now, defaults);
        assert(absent(docs, doc.id@) ==> after[i] == docs[i]);
    }
}

/// The statement that looks up a document asks for the row with its id.
proof fn lemma_doc_lookup(id: Seq<char>)
    ensures
        query(GET_DOC@).bind(ValueView::Text(id)) == id_select("*"@, "docs"@).statement(
            seq![ValueView::Text(id)],
        ),
        forall|row: Row| #[trigger]
            id_select("*"@, "docs"@).wants(row, seq![ValueView::Text(id)]) <==> has_key(row, id),
{
    let binds = seq![ValueView::Text(id)];
    lemma_get_doc_text();
    assert(query(GET_DOC@).bind(ValueView::Text(id)).binds =~= binds);
    assert(id_select("*"@, "docs"@).conditions[0].expr.value(binds, seq![]) == Cell::Text(id));
}

/// Looking up a document gives the row with its id, and nothing when there is none.
pub proof fn law_doc_is_looked_up_by_id(
    docs: Table,
    id: Seq<char>,
    datetime: spec_fn(Cell) -> Cell,
    rows: Seq<Row>,
)
    requires
        id_select("*"@, "docs"@).answers(docs, seq![ValueView::Text(id)], datetime, rows),
    ensures
        query(GET_DOC@).bind(ValueView::Text(id)) == id_select("*"@, "docs"@).statement(
            seq![ValueView::Text(id)],
        ),
        absent(docs, id) <==> rows.len() == 0,
        forall|k: int| #[trigger] only_at(docs, k, id) ==> rows == seq![docs[k]],
{
    let binds = seq![ValueView::Text(id)];
    let select = id_select("*"@, "docs"@);
    lemma_doc_lookup(id);
    lemma_answer_rows(select, docs, binds, datetime, rows);
    if absent(docs, id) {
        lemma_answer_none(select, docs, binds, datetime, rows);
    } else {
        let i = choose|i: int| 0 <= i < docs.len() && has_key(#[trigger] docs[i], id);
        assert(docs.contains(docs[i]));
        assert(rows.contains(docs[i]));
    }
    assert forall|k: int| #[trigger] only_at(docs, k, id) implies rows == seq![docs[k]] by {
        lemma_answer_one(select, docs, binds, datetime, rows, k);
    }
}

/// A document that was stored is found under its id, as it was given. Before, there was no other
/// row or the one at index `k` with that id.
pub proof fn law_stored_doc_is_found(
    docs: Table,
    doc: Doc,
    now: Seq<char>,
    defaults: Row,
    k: int,
    datetime: spec_fn(Cell) -> Cell,
    rows: Seq<Row>,
)
    requires
        absent(docs, doc.id@) || only_at(docs, k, doc.id@),
        id_select("*"@, "docs"@).answers(
            doc_stored(docs, doc, now, defaults),
            seq![ValueView::Text(doc.id@)],
            datetime,
            rows,
        ),
    ensures
        rows.len() == 1,
        holds_doc(rows[0], doc),
{
    let after = doc_stored(docs, doc, now, defaults);
    law_stored_doc_is_kept(docs, doc, now, defaults);
    law_doc_is_looked_up_by_id(after, doc.id@, datetime, rows);
    assert(only_at(docs, k, doc.id@) ==> has_key(docs[k], doc.id@));
    if absent(docs, doc.id@) {
        assert(only_at(after, docs.len() as int, doc.id@));
    } else {
        assert forall|i: int| 0 <= i < after.len() implies (has_key(
            #[trigger] after[i],
            doc.id@,
        ) <==> i == k) by {
            assert(has_key(docs[i], doc.id@) <==> i == k);
        }
        assert(only_at(after, k, doc.id@));
    }
}

/// The documents after the one with an id was deleted.
pub open spec fn doc_deleted(docs: Table, id: Seq<char>) -> Table {
    id_delete("docs"@).after(docs, seq![ValueView::Text(id)], seq![])
}

/// Deleting a document removes the row with its id and keeps all others, in their order. It is not
/// found afterwards.
pub proof fn law_deleted_doc_is_gone(
    docs: Table,
    id: Seq<char>,
    datetime: spec_fn(Cell) -> Cell,
    rows: Seq<Row>,
)
    requires
        id_select("*"@, "docs"@).answers(
            doc_deleted(docs, id),
            seq![ValueView::Text(id)],
            datetime,
            rows,
        ),
    ensures
        query(DELETE_DOC@).bind(ValueView::Text(id)) == id_delete("docs"@).statement(
            seq![ValueView::Text(id)],
        ),
        absent(doc_deleted(docs, id), id),
        doc_deleted(docs, id) == docs.filter(|row: Row| !has_key(row, id)),
        absent(docs, id) ==> doc_deleted(docs, id) == docs,
        rows.len() == 0,
{
    let binds = seq![ValueView::Text(id)];
    let after = doc_deleted(docs, id);
    let form = id_delete("docs"@);
    let others = |row: Row| !has_key(row, id);
    let kept = |row: Row| !meets(row, form.conditions, binds, seq![]);
    lemma_delete_doc_text();
    assert(query(DELETE_DOC@).bind(ValueView::Text(id)).binds =~= binds);
    assert(form.conditions[0].expr.value(binds, seq![]) == Cell::Text(id));
    assert(kept =~= others);
    assert forall|i: int| 0 <= i < after.len() implies !has_key(#[trigger] after[i], id) by {
        docs.lemma_filter_pred(others, i);
    }
    if absent(docs, id) {
        lemma_filter_all(docs, others);
    }
    law_doc_is_looked_up_by_id(after, id, datetime, rows);
}

/// The documents after the status of one was changed at the time `now`.
pub open spec fn doc_status_changed(
    docs: Table,
    id: Seq<char>,
    status: Seq<char>,
    now: Seq<char>,
) -> Table {
    status_update().after(docs, status_statement(id, status).binds, now)
}

/// What changing the status of a document does to one row.
proof fn lemma_status_changed(doc: Row, id: Seq<char>, status: Seq<char>, now: Seq<char>)
    ensures
        ({
            let binds = status_statement(id, status).binds;
            let next = status_update().row_after(doc, binds, now);
            &&& has_key(doc, id) ==> cell(next, "status"@) == Cell::Text(status) && cell(
                next,
                "updated_at"@,
            ) == Cell::Text(now)
            &&& !has_key(doc, id) ==> next == doc
            &&& forall|c: Seq<char>|
                c != "status"@ && c != "updated_at"@ ==> #[trigger] cell(next, c) == cell(doc, c)
        }),
{
    let u = status_update();
    let binds = status_statement(id, status).binds;
    let columns = columns_of(u.assignments);
    let values = values_of(u.assignments, binds, now);
    let names = doc_columns();
    lemma_doc_columns();
    assert(names[8] == "status"@ && names[9] == "updated_at"@);
    assert(columns =~= seq!["status"@, "updated_at"@]);
    assert(columns.no_duplicates());
    assert(u.conditions[0].expr.value(binds, now) == Cell::Text(id));
    lemma_assigned(doc, columns, values);
    assert(columns[0] == "status"@ && values[0] == stored(binds[0]));
    assert(columns[1] == "updated_at"@ && values[1] == Cell::Text(now));
    let next = u.row_after(doc, binds, now);
    assert forall|c: Seq<char>| c != "status"@ && c != "updated_at"@
        implies #[trigger] cell(next, c)
        == cell(doc, c) by {
        assert(!columns.contains(c));
    }
}

/// Changing the status of a document changes no other document, and of that document nothing but
/// the status and the time of the change.
pub proof fn law_status_changes_one_document(
    docs: Table,
    id: Seq<char>,
    status: Seq<char>,
    now: Seq<char>,
)
    ensures
        status_statement(id, status) == status_update().statement(
            status_statement(id, status).binds,
        ),
        numbered(status_update().assignments + status_update().conditions),
        ({
            let after = doc_status_changed(docs, id, status, now);
            &&& after.len() == docs.len()
            &&& forall|i: int|
                0 <= i < docs.len() && has_key(#[trigger] docs[i], id) ==> cell(
                    after[i],
                    "status"@,
                ) == Cell::Text(status) && cell(after[i], "updated_at"@) == Cell::Text(now)
            &&& forall|i: int|
                0 <= i < docs.len() && !has_key(#[trigger] docs[i], id) ==> after[i] == docs[i]
            &&& forall|i: int, c: Seq<char>|
                0 <= i < docs.len() && c != "status"@ && c != "updated_at"@ ==> #[trigger] cell(
                    after[i],
                    c,
                ) == cell(docs[i], c)
        }),
{
    let after = doc_status_changed(docs, id, status, now);
    lemma_status_update_text();
    reveal_with_fuel(parameters_upto, 4);
    assert forall|i: int| 0 <= i < docs.len() implies {
        &&& has_key(#[trigger] docs[i], id) ==> cell(after[i], "status"@) == Cell::Text(status)
            && cell(after[i], "updated_at"@) == Cell::Text(now)
        &&& !has_key(docs[i], id) ==> after[i] == docs[i]
    } by {
        lemma_status_changed(docs[i], id, status, now);
    }
    assert forall|i: int, c: Seq<char>|
        0 <= i < docs.len() && c != "status"@ && c != "updated_at"@ implies #[trigger] cell(
        after[i],
        c,
    ) == cell(docs[i], c) by {
        lemma_status_changed(docs[i], id, status, now);
    }
}

/// The listing of documents holds all of them, each once, newest first by the time that the
/// database reads from the column `created_at`.
pub proof fn law_documents_are_listed(
    docs: Table,
    datetime: spec_fn(Cell) -> Cell,
    listed: Seq<Row>,
)
    requires
        docs_select().answers(docs, seq![], datetime, listed),
    ensures
        query(LIST_DOCS@) == docs_select().statement(seq![]),
        listed.to_multiset() == docs.to_multiset(),
        descending(listed, Key::Datetime("created_at"@), datetime),
{
    lemma_list_docs_text();
    lemma_answer_all(docs_select(), docs, seq![], datetime, listed);
}

} // verus!

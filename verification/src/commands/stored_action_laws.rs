//! What holds of stored quick actions.
use vstd::prelude::*;

use crate::commands::knowledge::quick_action_statement;
use crate::commands::quick_actions::{PreviewedView, RequestView};
use crate::error::ErrorView;
use crate::form_texts::{
    lemma_delete_quick_action_text, lemma_get_quick_action_text, lemma_get_server_host_text,
    lemma_list_quick_actions_text, lemma_quick_action_columns, lemma_quick_action_upsert_text,
};
use crate::forms::{
    id_delete, id_select, quick_action_columns, quick_action_upsert, quick_actions_select,
};
use crate::models::QuickAction;
use crate::queries::{DELETE_QUICK_ACTION, GET_QUICK_ACTION, GET_SERVER_HOST, LIST_QUICK_ACTIONS};
use crate::sql::{query, text_or_null, ValueView};
use crate::tables::{
    absent, ascending, cell, columns_of, has_key, lemma_answer_all, lemma_answer_none,
    lemma_answer_one, lemma_answer_rows, lemma_assigned, lemma_filter_all, lemma_upsert, meets,
    merged_columns, merged_values, numbered, only_at, parameters_upto, stored, values_of, Cell, Key,
    Row, Table,
};
use crate::text::opt_text;

verus! {

/// Whether a row holds a quick action.
pub open spec fn holds_quick_action(row: Row, action: QuickAction) -> bool {
    &&& cell(row, "id"@) == Cell::Text(action.id@)
    &&& cell(row, "name"@) == Cell::Text(action.name@)
    &&& cell(row, "icon"@) == stored(text_or_null(opt_text(action.icon)))
    &&& cell(row, "target"@) == stored(text_or_null(opt_text(action.target)))
    &&& cell(row, "steps"@) == Cell::Text(action.steps@)
    &&& cell(row, "approval"@) == Cell::Text(action.approval@)
    &&& cell(row, "audit"@) == stored(ValueView::Boolean(action.audit))
}

/// The quick actions after a quick action was stored at the time `now`.
pub open spec fn quick_action_stored(
    actions: Table,
    action: QuickAction,
    now: Seq<char>,
    defaults: Row,
) -> Table {
    quick_action_upsert().after(actions, quick_action_statement(action).binds, now, defaults)
}

/// The row that is offered for a quick action, and what becomes of a stored row with its id.
proof fn lemma_quick_action_rows(action: QuickAction, row: Row, now: Seq<char>, defaults: Row)
    ensures
        ({
            let binds = quick_action_statement(action).binds;
            let offered = quick_action_upsert().insert.offered(binds, now, defaults);
            let merged = quick_action_upsert().merged(row, offered, now);
            &&& holds_quick_action(offered, action)
            &&& has_key(row, action.id@) ==> holds_quick_action(merged, action)
            &&& cell(merged, "updated_at"@) == Cell::Text(now)
            &&& forall|column: Seq<char>|
                !quick_action_columns().contains(column) ==> #[trigger] cell(merged, column)
                    == cell(
                    row,
                    column,
                )
        }),
{
    let form = quick_action_upsert();
    let binds = quick_action_statement(action).binds;
    let names = quick_action_columns();
    let columns = columns_of(form.insert.terms);
    let values = values_of(form.insert.terms, binds, now);
    let offered = form.insert.offered(binds, now, defaults);
    lemma_quick_action_columns();
    assert(columns =~= names.take(7));
    assert forall|i: int, j: int| 0 <= i < j < columns.len() implies columns[i] != columns[j] by {
        assert(columns[i] == names[i] && columns[j] == names[j]);
    }
    lemma_assigned(defaults, columns, values);
    assert(columns[0] == "id"@ && values[0] == stored(binds[0]));
    assert(columns[1] == "name"@ && values[1] == stored(binds[1]));
    assert(columns[2] == "icon"@ && values[2] == stored(binds[2]));
    assert(columns[3] == "target"@ && values[3] == stored(binds[3]));
    assert(columns[4] == "steps"@ && values[4] == stored(binds[4]));
    assert(columns[5] == "approval"@ && values[5] == stored(binds[5]));
    assert(columns[6] == "audit"@ && values[6] == stored(binds[6]));
    assert(holds_quick_action(offered, action));
    let changed = merged_columns(form.merges);
    let results = merged_values(form.merges, row, offered, now);
    assert(changed =~= names.skip(1));
    assert forall|i: int, j: int| 0 <= i < j < changed.len() implies changed[i] != changed[j] by {
        assert(changed[i] == names[i + 1] && changed[j] == names[j + 1]);
    }
    lemma_assigned(row, changed, results);
    let merged = form.merged(row, offered, now);
    assert(!changed.contains("id"@)) by {
        assert(names[0] == "id"@);
        assert forall|i: int| 0 <= i < changed.len() implies changed[i] != "id"@ by {
            assert(changed[i] == names[i + 1]);
        }
    }
    assert(cell(merged, "id"@) == cell(row, "id"@));
    assert(changed[0] == "name"@ && cell(merged, changed[0]) == results[0]);
    assert(changed[1] == "icon"@ && cell(merged, changed[1]) == results[1]);
    assert(changed[2] == "target"@ && cell(merged, changed[2]) == results[2]);
    assert(changed[3] == "steps"@ && cell(merged, changed[3]) == results[3]);
    assert(changed[4] == "approval"@ && cell(merged, changed[4]) == results[4]);
    assert(changed[5] == "audit"@ && cell(merged, changed[5]) == results[5]);
    assert(changed[6] == "updated_at"@ && cell(merged, changed[6]) == results[6]);
    assert forall|column: Seq<char>| !names.contains(column) implies #[trigger] cell(merged, column)
        == cell(row, column) by {
        assert forall|i: int| 0 <= i < changed.len() implies changed[i] != column by {
            assert(changed[i] == names[i + 1]);
        }
    }
}

/// Storing a quick action keeps what was given. Of one under a known id only the time of the change
/// is set anew besides. No other quick action is changed.
pub proof fn law_stored_quick_action_is_kept(
    actions: Table,
    action: QuickAction,
    now: Seq<char>,
    defaults: Row,
)
    ensures
        quick_action_statement(action)
            == quick_action_upsert().statement(quick_action_statement(action).binds),
        numbered(quick_action_upsert().insert.terms),
        ({
            let after = quick_action_stored(actions, action, now, defaults);
            &&& absent(actions, action.id@) ==> {
                &&& after == actions.push(after.last())
                &&& holds_quick_action(after.last(), action)
            }
            &&& !absent(actions, action.id@) ==> after.len() == actions.len()
            &&& forall|i: int|
                0 <= i < actions.len() && has_key(#[trigger] actions[i], action.id@)
                    ==> holds_quick_action(after[i], action)
                    && cell(after[i], "updated_at"@) == Cell::Text(now)
            &&& forall|i: int, column: Seq<char>|
                0 <= i < actions.len() && !quick_action_columns().contains(column)
                    ==> #[trigger] cell(
                    after[i],
                    column,
                ) == cell(actions[i], column)
            &&& forall|i: int|
                0 <= i < actions.len() && !has_key(#[trigger] actions[i], action.id@) ==> after[i]
                    == actions[i]
        }),
{
    let binds = quick_action_statement(action).binds;
    let after = quick_action_stored(actions, action, now, defaults);
    lemma_quick_action_upsert_text();
    reveal_with_fuel(parameters_upto, 8);
    lemma_quick_action_rows(action, defaults, now, defaults);
    lemma_upsert(quick_action_upsert(), actions, binds, now, defaults, action.id@);
    assert forall|i: int| 0 <= i < actions.len() && has_key(
        #[trigger] actions[i],
        action.id@,
    ) implies holds_quick_action(after[i], action) && cell(after[i], "updated_at"@) == Cell::Text(
        now,
    ) by {
        assert(!absent(actions, action.id@));
        lemma_quick_action_rows(action, actions[i], now, defaults);
        assert(after[i] == quick_action_upsert().merged(
            actions[i],
            quick_action_upsert().insert.offered(binds, now, defaults),
            now,
        ));
    }
    assert forall|i: int, column: Seq<char>|
        0 <= i < actions.len() && !quick_action_columns().contains(column) implies #[trigger] cell(
        after[i],
        column,
    ) == cell(actions[i], column) by {
        lemma_quick_action_rows(action, actions[i], now, defaults);
        assert(absent(actions, action.id@) ==> after[i] == actions[i]);
    }
}

/// The statement that looks up a quick action asks for the row with its id.
proof fn lemma_quick_action_lookup(id: Seq<char>)
    ensures
        query(GET_QUICK_ACTION@).bind(ValueView::Text(id))
            == id_select("*"@, "quick_actions"@).statement(
            seq![ValueView::Text(id)],
        ),
        forall|row: Row| #[trigger]
            id_select("*"@, "quick_actions"@).wants(row, seq![ValueView::Text(id)])
                <==> has_key(row, id),
{
    let binds = seq![ValueView::Text(id)];
    lemma_get_quick_action_text();
    assert(query(GET_QUICK_ACTION@).bind(ValueView::Text(id)).binds =~= binds);
    assert(id_select("*"@, "quick_actions"@).conditions[0].expr.value(binds, seq![])
        == Cell::Text(id));
}

/// Looking up a quick action gives the row with its id, and nothing when there is none.
pub proof fn law_quick_action_is_looked_up_by_id(
    actions: Table,
    id: Seq<char>,
    datetime: spec_fn(Cell) -> Cell,
    rows: Seq<Row>,
)
    requires
        id_select("*"@, "quick_actions"@).answers(actions, seq![ValueView::Text(id)], datetime,
            rows),
    ensures
        query(GET_QUICK_ACTION@).bind(ValueView::Text(id))
            == id_select("*"@, "quick_actions"@).statement(
            seq![ValueView::Text(id)],
        ),
        absent(actions, id) <==> rows.len() == 0,
        forall|k: int| #[trigger] only_at(actions, k, id) ==> rows == seq![actions[k]],
{
    let binds = seq![ValueView::Text(id)];
    let select = id_select("*"@, "quick_actions"@);
    lemma_quick_action_lookup(id);
    lemma_answer_rows(select, actions, binds, datetime, rows);
    if absent(actions, id) {
        lemma_answer_none(select, actions, binds, datetime, rows);
    } else {
        let i = choose|i: int| 0 <= i < actions.len() && has_key(#[trigger] actions[i], id);
        assert(actions.contains(actions[i]));
        assert(rows.contains(actions[i]));
    }
    assert forall|k: int| #[trigger] only_at(actions, k, id) implies rows == seq![actions[k]] by {
        lemma_answer_one(select, actions, binds, datetime, rows, k);
    }
}

/// A quick action that was stored is found under its id, as it was given. Before, there was no
/// other row or the one at index `k` with that id.
pub proof fn law_stored_quick_action_is_found(
    actions: Table,
    action: QuickAction,
    now: Seq<char>,
    defaults: Row,
    k: int,
    datetime: spec_fn(Cell) -> Cell,
    rows: Seq<Row>,
)
    requires
        absent(actions, action.id@) || only_at(actions, k, action.id@),
        id_select("*"@, "quick_actions"@).answers(
            quick_action_stored(actions, action, now, defaults),
            seq![ValueView::Text(action.id@)],
            datetime,
            rows,
        ),
    ensures
        rows.len() == 1,
        holds_quick_action(rows[0], action),
{
    let after = quick_action_stored(actions, action, now, defaults);
    law_stored_quick_action_is_kept(actions, action, now, defaults);
    law_quick_action_is_looked_up_by_id(after, action.id@, datetime, rows);
    assert(only_at(actions, k, action.id@) ==> has_key(actions[k], action.id@));
    if absent(actions, action.id@) {
        assert(only_at(after, actions.len() as int, action.id@));
    } else {
        assert forall|i: int| 0 <= i < after.len() implies (has_key(
            #[trigger] after[i],
            action.id@,
        ) <==> i == k) by {
            assert(has_key(actions[i], action.id@) <==> i == k);
        }
        assert(only_at(after, k, action.id@));
    }
}

/// The quick actions after the one with an id was deleted.
pub open spec fn quick_action_deleted(actions: Table, id: Seq<char>) -> Table {
    id_delete("quick_actions"@).after(actions, seq![ValueView::Text(id)], seq![])
}

/// Deleting a quick action removes the row with its id and keeps all others, in their order. It is
/// not found afterwards.
pub proof fn law_deleted_quick_action_is_gone(
    actions: Table,
    id: Seq<char>,
    datetime: spec_fn(Cell) -> Cell,
    rows: Seq<Row>,
)
    requires
        id_select("*"@, "quick_actions"@).answers(
            quick_action_deleted(actions, id),
            seq![ValueView::Text(id)],
            datetime,
            rows,
        ),
    ensures
        query(DELETE_QUICK_ACTION@).bind(ValueView::Text(id))
            == id_delete("quick_actions"@).statement(
            seq![ValueView::Text(id)],
        ),
        absent(quick_action_deleted(actions, id), id),
        quick_action_deleted(actions, id) == actions.filter(|row: Row| !has_key(row, id)),
        absent(actions, id) ==> quick_action_deleted(actions, id) == actions,
        rows.len() == 0,
{
    let binds = seq![ValueView::Text(id)];
    let after = quick_action_deleted(actions, id);
    let form = id_delete("quick_actions"@);
    let others = |row: Row| !has_key(row, id);
    let kept = |row: Row| !meets(row, form.conditions, binds, seq![]);
    lemma_delete_quick_action_text();
    assert(query(DELETE_QUICK_ACTION@).bind(ValueView::Text(id)).binds =~= binds);
    assert(form.conditions[0].expr.value(binds, seq![]) == Cell::Text(id));
    assert(kept =~= others);
    assert forall|i: int| 0 <= i < after.len() implies !has_key(#[trigger] after[i], id) by {
        actions.lemma_filter_pred(others, i);
    }
    if absent(actions, id) {
        lemma_filter_all(actions, others);
    }
    law_quick_action_is_looked_up_by_id(after, id, datetime, rows);
}

/// A quick action that is stored anew is refused to whoever has seen an earlier version of it: its
/// row then holds the time of the change, and a request that expects another time does not get past
/// it.
pub proof fn law_preview_of_an_earlier_version_is_refused(
    actions: Table,
    action: QuickAction,
    now: Seq<char>,
    defaults: Row,
    k: int,
    request: RequestView,
    loaded: QuickAction,
)
    requires
        0 <= k < actions.len(),
        has_key(actions[k], action.id@),
        request.expected_updated_at != now,
        cell(quick_action_stored(actions, action, now, defaults)[k], "updated_at"@) == Cell::Text(
            loaded.updated_at@,
        ),
    ensures
        request.loaded(Some(loaded)) == Err::<PreviewedView, ErrorView>(
            ErrorView::InvalidInput("快捷指令在预览后已被修改，请重新检查并批准"@),
        ),
{
    law_stored_quick_action_is_kept(actions, action, now, defaults);
}

/// The listing of quick actions holds all of them, each once, by name.
pub proof fn law_quick_actions_are_listed(
    actions: Table,
    datetime: spec_fn(Cell) -> Cell,
    listed: Seq<Row>,
)
    requires
        quick_actions_select().answers(actions, seq![], datetime, listed),
    ensures
        query(LIST_QUICK_ACTIONS@) == quick_actions_select().statement(seq![]),
        listed.to_multiset() == actions.to_multiset(),
        ascending(listed, Key::Column("name"@), datetime),
{
    lemma_list_quick_actions_text();
    lemma_answer_all(quick_actions_select(), actions, seq![], datetime, listed);
}

/// Looking up the host name of a server reads the row with the id of the server, and nothing when
/// there is none.
pub proof fn law_host_is_that_of_the_server(
    servers: Table,
    server_id: i64,
    datetime: spec_fn(Cell) -> Cell,
    rows: Seq<Row>,
)
    requires
        id_select("host"@, "servers"@).answers(
            servers,
            seq![ValueView::Integer(server_id)],
            datetime,
            rows,
        ),
    ensures
        query(GET_SERVER_HOST@).bind(ValueView::Integer(server_id)) == id_select(
            "host"@,
            "servers"@,
        ).statement(seq![ValueView::Integer(server_id)]),
        forall|row: Row| #[trigger]
            rows.contains(row) <==> servers.contains(row) && cell(row, "id"@) == Cell::Integer(
                server_id as int,
            ),
{
    let binds = seq![ValueView::Integer(server_id)];
    let select = id_select("host"@, "servers"@);
    lemma_get_server_host_text();
    assert(query(GET_SERVER_HOST@).bind(ValueView::Integer(server_id)).binds =~= binds);
    lemma_answer_rows(select, servers, binds, datetime, rows);
    assert forall|row: Row| #[trigger]
        select.wants(row, binds) <==> cell(row, "id"@) == Cell::Integer(server_id as int) by {
        assert(select.conditions[0].expr.value(binds, seq![]) == Cell::Integer(server_id as int));
    }
}

} // verus!

//! What holds of the entries of the audit log: each is registered as pending and completed once at
//! most.
use vstd::prelude::*;

use crate::audit::{
    exit_column, finish_statement, insert_statement, is_final_outcome, logged_entry, not_pending,
    opt_truncated, pending_entry, truncated, AuditContext, ContextView, EntryView,
};
use crate::commands::audit_log_laws::{law_filter_selects_by_its_fields, passes};
use crate::commands::audit_logs::FilterView;
use crate::error::ErrorView;
use crate::executor::finish_failure;
use crate::form_texts::{lemma_entry_columns, lemma_entry_insert_text, lemma_finish_update_text};
use crate::forms::{entry_columns, entry_insert, finish_update};
use crate::sql::{integer_or_null, text_or_null, StatementView, ValueView};
use crate::tables::{
    cell, columns_of, integer_cell, lemma_assigned, lemma_filter_none, lemma_filter_one, numbered,
    parameters_upto, str_cell, stored, string_cell, values_of, Cell, Row, Table,
};
use crate::text::opt_str;

verus! {

/// A request to complete an entry.
pub struct Completion {
    pub audit_id: i64,
    pub outcome: Seq<char>,
    pub exit_code: Option<i32>,
    pub output: Option<Seq<char>>,
    pub success: bool,
    pub duration_ms: i64,
}

impl Completion {
    /// The statement that is run for the request.
    pub open spec fn statement(self) -> StatementView {
        finish_statement(
            self.audit_id,
            self.outcome,
            self.exit_code,
            self.output,
            self.success,
            self.duration_ms,
        )
    }

    /// The values of the statement.
    pub open spec fn binds(self) -> Seq<ValueView> {
        self.statement().binds
    }

    /// The log after the statement.
    pub open spec fn after(self, log: Table) -> Table {
        finish_update().after(log, self.binds(), seq![])
    }

    /// How many entries the statement changes.
    pub open spec fn changed(self, log: Table) -> nat {
        finish_update().changed(log, self.binds(), seq![])
    }

    /// Whether an entry holds the result that the request gives.
    pub open spec fn is_recorded_in(self, entry: Row) -> bool {
        &&& cell(entry, "outcome"@) == Cell::Text(self.outcome)
        &&& cell(entry, "exit_code"@) == stored(integer_or_null(exit_column(self.exit_code)))
        &&& cell(entry, "output"@) == stored(text_or_null(opt_truncated(self.output)))
        &&& cell(entry, "success"@) == stored(ValueView::Boolean(self.success))
        &&& cell(entry, "duration_ms"@) == Cell::Integer(self.duration_ms as int)
    }
}

/// Whether a column holds part of the result of an operation.
pub open spec fn is_result_column(column: Seq<char>) -> bool {
    column == "outcome"@ || column == "exit_code"@ || column == "output"@ || column == "success"@
        || column == "duration_ms"@
}

/// The row that is stored for an entry under the id that the database gives it.
pub open spec fn entry_row(entry: EntryView, audit_id: i64) -> Row {
    entry_insert().offered(insert_statement(entry).binds, seq![], Map::empty()).insert(
        "id"@,
        Cell::Integer(audit_id as int),
    )
}

/// Whether a row holds an entry under an id.
pub open spec fn is_stored_as(row: Row, entry: EntryView, audit_id: i64) -> bool {
    &&& has_id(row, audit_id)
    &&& cell(row, "timestamp"@) == Cell::Text(entry.timestamp)
    &&& cell(row, "session_id"@) == stored(text_or_null(entry.session_id))
    &&& cell(row, "server_id"@) == stored(integer_or_null(entry.server_id))
    &&& cell(row, "server_host"@) == stored(text_or_null(entry.server_host))
    &&& cell(row, "source"@) == Cell::Text(entry.source)
    &&& cell(row, "tool_name"@) == Cell::Text(entry.tool_name)
    &&& cell(row, "command"@) == stored(text_or_null(entry.command))
    &&& cell(row, "args"@) == stored(text_or_null(entry.args))
    &&& cell(row, "exit_code"@) == stored(integer_or_null(entry.exit_code))
    &&& cell(row, "output"@) == stored(text_or_null(entry.output))
    &&& cell(row, "success"@) == stored(ValueView::Boolean(entry.success))
    &&& cell(row, "outcome"@) == Cell::Text(entry.outcome)
    &&& cell(row, "approved_by"@) == stored(text_or_null(entry.approved_by))
    &&& cell(row, "proposal_id"@) == stored(text_or_null(entry.proposal_id))
    &&& cell(row, "duration_ms"@) == Cell::Integer(entry.duration_ms as int)
}

/// What is done to the log over time.
pub enum Event {
    /// An entry is completed, or asked to be.
    Finish(Completion),
    /// An entry is stored under a new id.
    Add(EntryView, i64),
}

impl Event {
    /// The log after the event.
    pub open spec fn after(self, log: Table) -> Table {
        match self {
            Event::Finish(c) => c.after(log),
            Event::Add(entry, id) => log.push(entry_row(entry, id)),
        }
    }
}

/// Whether an entry has this id.
pub open spec fn has_id(entry: Row, audit_id: i64) -> bool {
    cell(entry, "id"@) == Cell::Integer(audit_id as int)
}

/// Whether an entry is pending.
pub open spec fn is_pending(entry: Row) -> bool {
    cell(entry, "outcome"@) == Cell::Text("pending"@)
}

/// Whether no entry has this id.
pub open spec fn is_new(log: Table, audit_id: i64) -> bool {
    forall|i: int| 0 <= i < log.len() ==> !has_id(#[trigger] log[i], audit_id)
}

/// Whether the entry at index `k` is the one with this id.
pub open spec fn is_only(log: Table, k: int, audit_id: i64) -> bool {
    &&& 0 <= k < log.len()
    &&& forall|i: int| 0 <= i < log.len() ==> (has_id(#[trigger] log[i], audit_id) <==> i == k)
}

/// Whether no entry with this id is pending.
pub open spec fn settled(log: Table, audit_id: i64) -> bool {
    forall|i: int|
        0 <= i < log.len() && has_id(#[trigger] log[i], audit_id) ==> !is_pending(log[i])
}

/// Whether an event can happen once there is an entry with this id: no other entry is stored under
/// it, and only final outcomes are recorded.
pub open spec fn admissible(event: Event, audit_id: i64) -> bool {
    match event {
        Event::Finish(c) => is_final_outcome(c.outcome),
        Event::Add(_, id) => id != audit_id,
    }
}

/// Whether an event has nothing to do with the entry with this id.
pub open spec fn elsewhere(event: Event, audit_id: i64) -> bool {
    match event {
        Event::Finish(c) => c.audit_id != audit_id,
        Event::Add(_, id) => id != audit_id,
    }
}

/// The log after some events.
pub open spec fn replay(log: Table, events: Seq<Event>) -> Table
    decreases events.len(),
{
    if events.len() == 0 {
        log
    } else {
        events.last().after(replay(log, events.drop_last()))
    }
}

/// The statements on entries have the texts of their forms, and their parameters are numbered as
/// they are written.
pub proof fn law_entry_statements_have_their_forms(c: Completion, entry: EntryView)
    ensures
        c.statement() == finish_update().statement(c.binds()),
        numbered(finish_update().assignments + finish_update().conditions),
        insert_statement(entry).sql == entry_insert().text_returning("id"@),
        numbered(entry_insert().terms),
{
    lemma_finish_update_text();
    lemma_entry_insert_text();
    reveal_with_fuel(parameters_upto, 16);
}

/// A final outcome is not that of a pending entry.
proof fn lemma_final_is_not_pending(outcome: Seq<char>)
    requires
        is_final_outcome(outcome),
    ensures
        outcome != "pending"@,
{
    reveal_strlit("pending");
    reveal_strlit("succeeded");
    reveal_strlit("failed");
    reveal_strlit("unknown");
    assert("pending"@.len() == 7 && "succeeded"@.len() == 9 && "failed"@.len() == 6);
    assert("pending"@[0] != "unknown"@[0]);
}

/// What is stored for an entry.
pub proof fn lemma_entry_row(entry: EntryView, audit_id: i64)
    ensures
        is_stored_as(entry_row(entry, audit_id), entry, audit_id),
{
    let binds = insert_statement(entry).binds;
    let columns = columns_of(entry_insert().terms);
    let values = values_of(entry_insert().terms, binds, seq![]);
    let offered = entry_insert().offered(binds, seq![], Map::empty());
    lemma_entry_columns();
    let all = entry_columns();
    assert(columns =~= all.skip(1));
    assert forall|i: int, j: int| 0 <= i < j < columns.len() implies columns[i] != columns[j] by {
        assert(columns[i] == all[i + 1] && columns[j] == all[j + 1]);
    }
    assert forall|k: int| 0 <= k < columns.len() implies columns[k] != "id"@ by {
        assert(columns[k] == all[k + 1] && all[0] == "id"@);
    }
    lemma_assigned(Map::empty(), columns, values);
    assert forall|k: int| 0 <= k < columns.len() implies cell(
        entry_row(entry, audit_id),
        #[trigger] columns[k],
    ) == stored(binds[k]) by {
        assert(cell(offered, columns[k]) == values[k]);
    }
    assert(columns[0] == "timestamp"@ && columns[1] == "session_id"@ && columns[2] == "server_id"@
        && columns[3] == "server_host"@ && columns[4] == "source"@ && columns[5] == "tool_name"@
        && columns[6] == "command"@ && columns[7] == "args"@ && columns[8] == "exit_code"@);
    assert(columns[9] == "output"@ && columns[10] == "success"@ && columns[11] == "outcome"@
        && columns[12] == "approved_by"@ && columns[13] == "proposal_id"@ && columns[14]
        == "duration_ms"@);
}

/// What a request does to one entry.
proof fn lemma_entry_after(c: Completion, entry: Row)
    ensures
        finish_update().applies(entry, c.binds(), seq![]) <==> has_id(entry, c.audit_id)
            && is_pending(entry),
        ({
            let next = finish_update().row_after(entry, c.binds(), seq![]);
            &&& cell(next, "id"@) == cell(entry, "id"@)
            &&& !(has_id(entry, c.audit_id) && is_pending(entry)) ==> next == entry
            &&& has_id(entry, c.audit_id) && is_pending(entry) ==> c.is_recorded_in(next)
            &&& forall|column: Seq<char>|
                !is_result_column(column) ==> #[trigger] cell(next, column) == cell(entry, column)
        }),
{
    let u = finish_update();
    let binds = c.binds();
    let columns = columns_of(u.assignments);
    let values = values_of(u.assignments, binds, seq![]);
    lemma_entry_columns();
    let all = entry_columns();
    assert(all[0] == "id"@ && all[9] == "exit_code"@ && all[10] == "output"@ && all[11]
        == "success"@ && all[12] == "outcome"@ && all[15] == "duration_ms"@);
    assert(columns =~= seq![
        "outcome"@,
        "exit_code"@,
        "output"@,
        "success"@,
        "duration_ms"@,
    ]);
    assert(columns.no_duplicates());
    assert(u.conditions[0].expr.value(binds, seq![]) == Cell::Integer(c.audit_id as int));
    assert(u.conditions[1].expr.value(binds, seq![]) == Cell::Text("pending"@));
    lemma_assigned(entry, columns, values);
    let next = u.row_after(entry, binds, seq![]);
    assert(!is_result_column("id"@));
    assert forall|column: Seq<char>| !is_result_column(column) implies #[trigger] cell(next, column)
        == cell(entry, column) by {
        assert(!columns.contains(column));
    }
    assert(cell(next, "id"@) == cell(entry, "id"@));
    if u.applies(entry, binds, seq![]) {
        assert(columns[0] == "outcome"@ && columns[1] == "exit_code"@ && columns[2] == "output"@
            && columns[3] == "success"@ && columns[4] == "duration_ms"@);
        assert(values[0] == stored(binds[0]) && values[1] == stored(binds[1]) && values[2]
            == stored(binds[2]) && values[3] == stored(binds[3]) && values[4] == stored(binds[4]));
    }
}

/// Entries that are settled stay as they are.
proof fn lemma_settled_step(log: Table, event: Event, audit_id: i64)
    requires
        settled(log, audit_id),
        admissible(event, audit_id),
    ensures
        settled(event.after(log), audit_id),
        event.after(log).len() >= log.len(),
        forall|i: int|
            0 <= i < log.len() && has_id(#[trigger] log[i], audit_id) ==> event.after(log)[i]
                == log[i],
{
    let next = event.after(log);
    match event {
        Event::Finish(c) => {
            assert forall|i: int| 0 <= i < log.len() implies (has_id(#[trigger] log[i], audit_id)
                ==> next[i] == log[i]) && (has_id(next[i], audit_id) <==> has_id(
                log[i],
                audit_id,
            )) by {
                lemma_entry_after(c, log[i]);
            }
        },
        Event::Add(entry, id) => {
            lemma_entry_row(entry, id);
        },
    }
}

/// Whatever happens afterwards, entries that are settled stay as they are.
proof fn lemma_settled_stays(log: Table, events: Seq<Event>, audit_id: i64)
    requires
        settled(log, audit_id),
        forall|i: int| 0 <= i < events.len() ==> admissible(#[trigger] events[i], audit_id),
    ensures
        settled(replay(log, events), audit_id),
        replay(log, events).len() >= log.len(),
        forall|i: int|
            0 <= i < log.len() && has_id(#[trigger] log[i], audit_id) ==> replay(log, events)[i]
                == log[i],
    decreases events.len(),
{
    if events.len() > 0 {
        let front = events.drop_last();
        assert forall|i: int| 0 <= i < front.len() implies admissible(
            #[trigger] front[i],
            audit_id,
        ) by {
            assert(front[i] == events[i]);
        }
        lemma_settled_stays(log, front, audit_id);
        assert(admissible(events[events.len() - 1], audit_id));
        lemma_settled_step(replay(log, front), events.last(), audit_id);
    }
}

/// While nothing is done to an entry, it stays as it is and the only one with its id.
proof fn lemma_only_stays(log: Table, events: Seq<Event>, k: int, audit_id: i64)
    requires
        is_only(log, k, audit_id),
        forall|i: int| 0 <= i < events.len() ==> elsewhere(#[trigger] events[i], audit_id),
    ensures
        is_only(replay(log, events), k, audit_id),
        replay(log, events)[k] == log[k],
    decreases events.len(),
{
    if events.len() > 0 {
        let front = events.drop_last();
        assert forall|i: int| 0 <= i < front.len() implies elsewhere(
            #[trigger] front[i],
            audit_id,
        ) by {
            assert(front[i] == events[i]);
        }
        lemma_only_stays(log, front, k, audit_id);
        let before = replay(log, front);
        let next = replay(log, events);
        assert(elsewhere(events[events.len() - 1], audit_id));
        match events.last() {
            Event::Finish(c) => {
                assert forall|i: int| 0 <= i < before.len() implies (has_id(
                    #[trigger] next[i],
                    audit_id,
                ) <==> has_id(before[i], audit_id)) && (i == k ==> next[i] == before[i]) by {
                    lemma_entry_after(c, before[i]);
                }
            },
            Event::Add(entry, id) => {
                lemma_entry_row(entry, id);
            },
        }
    }
}

/// Registering an operation adds one entry to the log, under the new id that the database gives it:
/// a pending one with the columns that were given, without a result.
pub proof fn law_begin_adds_a_pending_entry(
    log: Table,
    timestamp: Seq<char>,
    server_id: Option<i64>,
    server_host: Option<Seq<char>>,
    command: Option<Seq<char>>,
    ctx: ContextView,
    audit_id: i64,
)
    requires
        is_new(log, audit_id),
    ensures
        ({
            let entry = pending_entry(timestamp, server_id, server_host, command, ctx);
            let after = Event::Add(entry, audit_id).after(log);
            &&& insert_statement(entry).sql == entry_insert().text_returning("id"@)
            &&& after.len() == log.len() + 1
            &&& forall|i: int| 0 <= i < log.len() ==> #[trigger] after[i] == log[i]
            &&& is_only(after, log.len() as int, audit_id)
            &&& is_stored_as(after.last(), entry, audit_id)
            &&& is_pending(after.last())
            &&& cell(after.last(), "exit_code"@) is Null
            &&& cell(after.last(), "output"@) is Null
            &&& cell(after.last(), "success"@) == Cell::Integer(0)
        }),
{
    let entry = pending_entry(timestamp, server_id, server_host, command, ctx);
    lemma_entry_insert_text();
    lemma_entry_row(entry, audit_id);
}

/// An operation that is recorded in one go is settled from the start: completing its entry changes
/// nothing and is refused.
pub proof fn law_logged_entry_is_final(
    log: Table,
    timestamp: Seq<char>,
    server_id: Option<i64>,
    server_host: Option<Seq<char>>,
    success: bool,
    output: Option<Seq<char>>,
    ctx: ContextView,
    later: Completion,
)
    requires
        is_new(log, later.audit_id),
    ensures
        ({
            let entry = logged_entry(timestamp, server_id, server_host, success, output, ctx);
            let after = Event::Add(entry, later.audit_id).after(log);
            &&& insert_statement(entry).sql == entry_insert().text_returning("id"@)
            &&& is_stored_as(after.last(), entry, later.audit_id)
            &&& !is_pending(after.last())
            &&& later.changed(after) == 0
            &&& later.after(after) == after
            &&& finish_failure(later.audit_id, Ok::<u64, ErrorView>(later.changed(after) as u64))
                == Some(not_pending(later.audit_id))
        }),
{
    let entry = logged_entry(timestamp, server_id, server_host, success, output, ctx);
    let after = Event::Add(entry, later.audit_id).after(log);
    lemma_entry_insert_text();
    lemma_entry_row(entry, later.audit_id);
    lemma_final_is_not_pending(entry.outcome);
    lemma_settled_is_refused(after, later);
}

/// Where no entry with its id is pending, a completion changes nothing.
proof fn lemma_settled_is_refused(log: Table, later: Completion)
    requires
        settled(log, later.audit_id),
    ensures
        later.changed(log) == 0,
        later.after(log) == log,
{
    assert forall|i: int| 0 <= i < log.len() implies !finish_update().applies(
        #[trigger] log[i],
        later.binds(),
        seq![],
    ) && later.after(log)[i] == log[i] by {
        lemma_entry_after(later, log[i]);
    }
    lemma_filter_none(log, |row: Row| finish_update().applies(row, later.binds(), seq![]));
    assert(later.after(log) =~= log);
}

/// Completing an entry takes it from pending to the outcome that is given. It gets the given
/// result, the output truncated, and keeps every other column. Entries with another id, and entries
/// that are not pending, are as before.
pub proof fn law_completion_changes_only_its_pending_entry(log: Table, c: Completion, i: int)
    requires
        0 <= i < log.len(),
    ensures
        c.statement() == finish_update().statement(c.binds()),
        c.after(log).len() == log.len(),
        has_id(log[i], c.audit_id) && is_pending(log[i]) ==> c.is_recorded_in(c.after(log)[i]),
        forall|column: Seq<char>|
            !is_result_column(column) ==> #[trigger] cell(c.after(log)[i], column) == cell(
                log[i],
                column,
            ),
        !(has_id(log[i], c.audit_id) && is_pending(log[i])) ==> c.after(log)[i] == log[i],
{
    lemma_finish_update_text();
    lemma_entry_after(c, log[i]);
}

/// A pending entry can be completed: where it is the only one with its id, a completion changes
/// exactly one row and is accepted.
pub proof fn law_pending_entry_can_be_completed(log: Table, c: Completion, k: int)
    requires
        is_only(log, k, c.audit_id),
        is_pending(log[k]),
    ensures
        c.changed(log) == 1,
        finish_failure(c.audit_id, Ok::<u64, ErrorView>(c.changed(log) as u64)) is None,
{
    assert forall|j: int| 0 <= j < log.len() implies (#[trigger] finish_update().applies(
        log[j],
        c.binds(),
        seq![],
    ) <==> j == k) by {
        lemma_entry_after(c, log[j]);
    }
    lemma_filter_one(log, |row: Row| finish_update().applies(row, c.binds(), seq![]), k);
}

/// A result is written once at most. After a first completion of an entry, whatever entries are
/// completed or stored next, a later completion of it changes no row, leaves the log as it is and
/// is refused; the entry stays exactly as the first completion left it.
pub proof fn law_entry_is_completed_once(
    log: Table,
    first: Completion,
    between: Seq<Event>,
    later: Completion,
)
    requires
        is_final_outcome(first.outcome),
        later.audit_id == first.audit_id,
        forall|i: int|
            0 <= i < between.len() ==> admissible(#[trigger] between[i], first.audit_id),
    ensures
        first.statement() == finish_update().statement(first.binds()),
        later.statement() == finish_update().statement(later.binds()),
        ({
            let done = first.after(log);
            let now = replay(done, between);
            &&& later.changed(now) == 0
            &&& later.after(now) == now
            &&& finish_failure(later.audit_id, Ok::<u64, ErrorView>(later.changed(now) as u64))
                == Some(not_pending(later.audit_id))
            &&& now.len() >= done.len()
            &&& forall|i: int|
                0 <= i < done.len() && has_id(#[trigger] done[i], first.audit_id) ==> now[i]
                    == done[i] && !is_pending(done[i])
        }),
{
    let done = first.after(log);
    lemma_finish_update_text();
    lemma_final_is_not_pending(first.outcome);
    assert forall|i: int| 0 <= i < done.len() && has_id(
        #[trigger] done[i],
        first.audit_id,
    ) implies !is_pending(done[i]) by {
        lemma_entry_after(first, log[i]);
    }
    lemma_settled_stays(done, between, first.audit_id);
    lemma_settled_is_refused(replay(done, between), later);
}

/// A registered entry is completed exactly once. Whatever happens to other entries in the meantime,
/// the first completion changes exactly the entry that was registered, and is accepted; it gives
/// the entry its result and leaves its other columns as they were registered. Whatever happens
/// next, a later completion changes nothing and is refused.
pub proof fn law_begun_entry_is_completed_exactly_once(
    log: Table,
    timestamp: Seq<char>,
    server_id: Option<i64>,
    server_host: Option<Seq<char>>,
    command: Option<Seq<char>>,
    ctx: ContextView,
    meantime: Seq<Event>,
    first: Completion,
    between: Seq<Event>,
    later: Completion,
)
    requires
        is_new(log, first.audit_id),
        is_final_outcome(first.outcome),
        later.audit_id == first.audit_id,
        forall|i: int|
            0 <= i < meantime.len() ==> elsewhere(#[trigger] meantime[i], first.audit_id),
        forall|i: int|
            0 <= i < between.len() ==> admissible(#[trigger] between[i], first.audit_id),
    ensures
        ({
            let entry = pending_entry(timestamp, server_id, server_host, command, ctx);
            let k = log.len() as int;
            let begun = Event::Add(entry, first.audit_id).after(log);
            let ready = replay(begun, meantime);
            let done = first.after(ready);
            let now = replay(done, between);
            &&& ready[k] == begun[k]
            &&& first.changed(ready) == 1
            &&& finish_failure(first.audit_id, Ok::<u64, ErrorView>(first.changed(ready) as u64))
                is None
            &&& first.is_recorded_in(done[k])
            &&& forall|column: Seq<char>|
                !is_result_column(column) ==> #[trigger] cell(done[k], column) == cell(
                    begun[k],
                    column,
                )
            &&& now[k] == done[k]
            &&& later.changed(now) == 0
            &&& later.after(now) == now
            &&& finish_failure(later.audit_id, Ok::<u64, ErrorView>(later.changed(now) as u64))
                == Some(not_pending(later.audit_id))
        }),
{
    let entry = pending_entry(timestamp, server_id, server_host, command, ctx);
    let k = log.len() as int;
    let begun = Event::Add(entry, first.audit_id).after(log);
    law_begin_adds_a_pending_entry(
        log,
        timestamp,
        server_id,
        server_host,
        command,
        ctx,
        first.audit_id,
    );
    lemma_only_stays(begun, meantime, k, first.audit_id);
    let ready = replay(begun, meantime);
    law_pending_entry_can_be_completed(ready, first, k);
    law_completion_changes_only_its_pending_entry(ready, first, k);
    assert(has_id(first.after(ready)[k], first.audit_id)) by {
        lemma_entry_after(first, ready[k]);
    }
    law_entry_is_completed_once(ready, first, between, later);
}

/// What the row of a registered operation holds: of the context exactly the session, the source, the
/// tool, the arguments, the approval and the proposal that it gives, the server that was given, and
/// the given command or else that of the context. It is pending and has no result.
pub proof fn law_registered_row_holds_what_was_given(
    timestamp: &str,
    server_id: Option<i64>,
    server_host: Option<&str>,
    command: Option<&str>,
    ctx: AuditContext,
    audit_id: i64,
)
    ensures
        ({
            let row = entry_row(
                pending_entry(timestamp@, server_id, opt_str(server_host), opt_str(command), ctx@),
                audit_id,
            );
            &&& cell(row, "id"@) == Cell::Integer(audit_id as int)
            &&& cell(row, "timestamp"@) == Cell::Text(timestamp@)
            &&& cell(row, "session_id"@) == string_cell(ctx.session_id)
            &&& cell(row, "server_id"@) == integer_cell(server_id)
            &&& cell(row, "server_host"@) == str_cell(server_host)
            &&& cell(row, "source"@) == Cell::Text(ctx.source@)
            &&& cell(row, "tool_name"@) == Cell::Text(ctx.tool_name@)
            &&& command matches Some(c) ==> cell(row, "command"@) == Cell::Text(c@)
            &&& command is None ==> cell(row, "command"@) == string_cell(ctx.command)
            &&& cell(row, "args"@) == string_cell(ctx.args)
            &&& cell(row, "exit_code"@) == Cell::Null
            &&& cell(row, "output"@) == Cell::Null
            &&& cell(row, "success"@) == Cell::Integer(0)
            &&& cell(row, "outcome"@) == Cell::Text("pending"@)
            &&& cell(row, "approved_by"@) == string_cell(ctx.approved_by)
            &&& cell(row, "proposal_id"@) == string_cell(ctx.proposal_id)
            &&& cell(row, "duration_ms"@) == Cell::Integer(0)
        }),
{
    lemma_entry_row(
        pending_entry(timestamp@, server_id, opt_str(server_host), opt_str(command), ctx@),
        audit_id,
    );
}

/// What the row of an operation holds that is logged in one go: the server that was given, of the
/// context exactly what it gives, the command among it, the flag that was given, the outcome that
/// the flag means, and the output as far as it is kept.
pub proof fn law_logged_row_holds_what_was_given(
    timestamp: &str,
    server_id: Option<i64>,
    server_host: Option<&str>,
    success: bool,
    output: Option<&str>,
    ctx: AuditContext,
    audit_id: i64,
)
    ensures
        ({
            let row = entry_row(
                logged_entry(
                    timestamp@,
                    server_id,
                    opt_str(server_host),
                    success,
                    opt_str(output),
                    ctx@,
                ),
                audit_id,
            );
            &&& cell(row, "id"@) == Cell::Integer(audit_id as int)
            &&& cell(row, "timestamp"@) == Cell::Text(timestamp@)
            &&& cell(row, "session_id"@) == string_cell(ctx.session_id)
            &&& cell(row, "server_id"@) == integer_cell(server_id)
            &&& cell(row, "server_host"@) == str_cell(server_host)
            &&& cell(row, "source"@) == Cell::Text(ctx.source@)
            &&& cell(row, "tool_name"@) == Cell::Text(ctx.tool_name@)
            &&& cell(row, "command"@) == string_cell(ctx.command)
            &&& cell(row, "args"@) == string_cell(ctx.args)
            &&& cell(row, "exit_code"@) == Cell::Null
            &&& output matches Some(o) ==> cell(row, "output"@) == Cell::Text(truncated(o@))
            &&& output is None ==> cell(row, "output"@) == Cell::Null
            &&& success ==> cell(row, "success"@) == Cell::Integer(1)
            &&& !success ==> cell(row, "success"@) == Cell::Integer(0)
            &&& success ==> cell(row, "outcome"@) == Cell::Text("succeeded"@)
            &&& !success ==> cell(row, "outcome"@) == Cell::Text("failed"@)
            &&& cell(row, "approved_by"@) == string_cell(ctx.approved_by)
            &&& cell(row, "proposal_id"@) == string_cell(ctx.proposal_id)
            &&& cell(row, "duration_ms"@) == Cell::Integer(0)
        }),
{
    lemma_entry_row(
        logged_entry(timestamp@, server_id, opt_str(server_host), success, opt_str(output), ctx@),
        audit_id,
    );
}

/// A listing by server shows what was logged or registered on that server and nothing else of it:
/// the row of an operation meets the condition on a server exactly when that server was given.
pub proof fn law_operations_are_listed_under_their_server(
    timestamp: &str,
    server_id: Option<i64>,
    server_host: Option<&str>,
    command: Option<&str>,
    success: bool,
    output: Option<&str>,
    ctx: AuditContext,
    audit_id: i64,
    wanted: i64,
)
    ensures
        ({
            let registered = entry_row(
                pending_entry(timestamp@, server_id, opt_str(server_host), opt_str(command), ctx@),
                audit_id,
            );
            let logged = entry_row(
                logged_entry(
                    timestamp@,
                    server_id,
                    opt_str(server_host),
                    success,
                    opt_str(output),
                    ctx@,
                ),
                audit_id,
            );
            let only = FilterView {
                server_id: Some(wanted),
                session_id: None,
                source: None,
                success: None,
                search: None,
                from: None,
                to: None,
                limit: 1,
                offset: 0,
            };
            &&& passes(only, registered) <==> server_id == Some(wanted)
            &&& passes(only, logged) <==> server_id == Some(wanted)
        }),
{
    law_registered_row_holds_what_was_given(
        timestamp,
        server_id,
        server_host,
        command,
        ctx,
        audit_id,
    );
    law_logged_row_holds_what_was_given(
        timestamp,
        server_id,
        server_host,
        success,
        output,
        ctx,
        audit_id,
    );
    let only = FilterView {
        server_id: Some(wanted),
        session_id: None,
        source: None,
        success: None,
        search: None,
        from: None,
        to: None,
        limit: 1,
        offset: 0,
    };
    law_filter_selects_by_its_fields(
        only,
        entry_row(
            pending_entry(timestamp@, server_id, opt_str(server_host), opt_str(command), ctx@),
            audit_id,
        ),
    );
    law_filter_selects_by_its_fields(
        only,
        entry_row(
            logged_entry(
                timestamp@,
                server_id,
                opt_str(server_host),
                success,
                opt_str(output),
                ctx@,
            ),
            audit_id,
        ),
    );
}

/// What completing an entry writes into its row: the given outcome, exit code, flag and duration,
/// and the output as far as it is kept. The row that is written is the one with the given id.
pub proof fn law_completed_row_holds_what_was_given(
    log: Table,
    i: int,
    audit_id: i64,
    outcome: &str,
    exit_code: Option<i32>,
    output: Option<&str>,
    success: bool,
    duration_ms: i64,
)
    requires
        0 <= i < log.len(),
        cell(log[i], "id"@) == Cell::Integer(audit_id as int),
        cell(log[i], "outcome"@) == Cell::Text("pending"@),
    ensures
        ({
            let statement = finish_statement(
                audit_id,
                outcome@,
                exit_code,
                opt_str(output),
                success,
                duration_ms,
            );
            let row = finish_update().after(log, statement.binds, seq![])[i];
            &&& statement == finish_update().statement(statement.binds)
            &&& cell(row, "id"@) == Cell::Integer(audit_id as int)
            &&& cell(row, "outcome"@) == Cell::Text(outcome@)
            &&& exit_code matches Some(c) ==> cell(row, "exit_code"@) == Cell::Integer(c as int)
            &&& exit_code is None ==> cell(row, "exit_code"@) == Cell::Null
            &&& output matches Some(o) ==> cell(row, "output"@) == Cell::Text(truncated(o@))
            &&& output is None ==> cell(row, "output"@) == Cell::Null
            &&& success ==> cell(row, "success"@) == Cell::Integer(1)
            &&& !success ==> cell(row, "success"@) == Cell::Integer(0)
            &&& cell(row, "duration_ms"@) == Cell::Integer(duration_ms as int)
        }),
{
    let c = Completion {
        audit_id,
        outcome: outcome@,
        exit_code,
        output: opt_str(output),
        success,
        duration_ms,
    };
    lemma_finish_update_text();
    lemma_entry_after(c, log[i]);
}

} // verus!

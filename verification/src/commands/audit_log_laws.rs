//! What the listings and the statistics of the audit log show.
use vstd::prelude::*;

use crate::commands::audit_logs::{
    audit_query, clauses, conditions, flat_binds, like_pattern, page_size, page_start,
    search_condition, server_condition, success_condition, text_condition, where_text, Condition,
    FilterView,
};
use crate::decimal::signed_decimal;
use crate::form_texts::{
    lemma_count_audit_logs_text, lemma_count_failed_text, lemma_count_pending_text,
    lemma_count_succeeded_text, lemma_count_unknown_text, lemma_session_audit_logs_text,
};
use crate::forms::{entry_count, outcome_count, session_select};
use crate::queries::{
    AUDIT_QUERY_HEAD, AUDIT_QUERY_TAIL, COUNT_AUDIT_LOGS, COUNT_FAILED, COUNT_PENDING,
    COUNT_SUCCEEDED, COUNT_UNKNOWN, FROM_CLAUSE, SEARCH_CLAUSE, SERVER_CLAUSE, SESSION_AUDIT_LOGS,
    SESSION_CLAUSE, SOURCE_CLAUSE, SUCCESS_CLAUSE, TO_CLAUSE,
};
use crate::sql::{query, ValueView};
use crate::tables::{
    ascending, cell, cell_le, descending, lemma_answer_rows, lemma_filter_all, lemma_filter_count,
    meets, stored, Cell, Key, Order, Row, Table,
};

verus! {

/// A letter of the Latin alphabet in lower case; any other character as it is.
pub open spec fn lower_case(c: char) -> char {
    if 'A' <= c <= 'Z' {
        (c as u32 + 32) as char
    } else {
        c
    }
}

/// Whether a text matches a LIKE pattern: `%` stands for any text, `_` for any character, and the
/// case of the letters A to Z does not matter.
pub open spec fn like(pattern: Seq<char>, s: Seq<char>) -> bool
    decreases pattern.len() + s.len(),
{
    if pattern.len() == 0 {
        s.len() == 0
    } else if pattern[0] == '%' {
        like(pattern.skip(1), s) || (s.len() > 0 && like(pattern, s.skip(1)))
    } else {
        s.len() > 0 && (pattern[0] == '_' || lower_case(pattern[0]) == lower_case(s[0])) && like(
            pattern.skip(1),
            s.skip(1),
        )
    }
}

/// Whether a stored value matches a LIKE pattern. NULL matches none.
pub open spec fn cell_like(pattern: Seq<char>, value: Cell) -> bool {
    match value {
        Cell::Null => false,
        Cell::Integer(i) => like(pattern, signed_decimal(i)),
        Cell::Text(t) => like(pattern, t),
    }
}

/// A condition of a listing.
pub enum Predicate {
    /// The column has this value.
    Is(Seq<char>, ValueView),
    /// The column has this value or a greater one.
    AtLeast(Seq<char>, Seq<char>),
    /// The column has this value or a lesser one.
    AtMost(Seq<char>, Seq<char>),
    /// One of the three columns matches the pattern.
    AnyLike(Seq<char>, Seq<char>, Seq<char>, Seq<char>),
}

impl Predicate {
    /// How the condition is written.
    pub open spec fn text(self) -> Seq<char> {
        match self {
            Predicate::Is(column, _) => column + " = ?"@,
            Predicate::AtLeast(column, _) => column + " >= ?"@,
            Predicate::AtMost(column, _) => column + " <= ?"@,
            Predicate::AnyLike(a, b, c, _) => "("@ + a + " LIKE ? OR "@ + b + " LIKE ? OR "@ + c
                + " LIKE ?)"@,
        }
    }

    /// The values of its parameters.
    pub open spec fn binds(self) -> Seq<ValueView> {
        match self {
            Predicate::Is(_, value) => seq![value],
            Predicate::AtLeast(_, t) => seq![ValueView::Text(t)],
            Predicate::AtMost(_, t) => seq![ValueView::Text(t)],
            Predicate::AnyLike(_, _, _, p) => {
                let p = ValueView::Text(p);
                seq![p, p, p]
            },
        }
    }

    /// Whether an entry meets the condition. NULL meets none.
    pub open spec fn holds(self, entry: Row) -> bool {
        match self {
            Predicate::Is(column, value) => stored(value) !is Null && cell(entry, column) == stored(
                value,
            ),
            Predicate::AtLeast(column, t) => cell(entry, column) !is Null && cell_le(
                Cell::Text(t),
                cell(entry, column),
            ),
            Predicate::AtMost(column, t) => cell(entry, column) !is Null && cell_le(
                cell(entry, column),
                Cell::Text(t),
            ),
            Predicate::AnyLike(a, b, c, p) => cell_like(p, cell(entry, a)) || cell_like(
                p,
                cell(entry, b),
            ) || cell_like(p, cell(entry, c)),
        }
    }
}

/// One condition, if there is one.
pub open spec fn one_if(applies: bool, predicate: Predicate) -> Seq<Predicate> {
    if applies {
        seq![predicate]
    } else {
        seq![]
    }
}

/// The condition on the server, if a filter has one.
pub open spec fn server_predicate(f: FilterView) -> Seq<Predicate> {
    one_if(f.server_id is Some, Predicate::Is("server_id"@, ValueView::Integer(f.server_id->0)))
}

/// The condition on the session, if a filter has one.
pub open spec fn session_predicate(f: FilterView) -> Seq<Predicate> {
    one_if(f.session_id is Some, Predicate::Is("session_id"@, ValueView::Text(f.session_id->0)))
}

/// The condition on the source, if a filter has one.
pub open spec fn source_predicate(f: FilterView) -> Seq<Predicate> {
    one_if(f.source is Some, Predicate::Is("source"@, ValueView::Text(f.source->0)))
}

/// The condition on success, if a filter has one.
pub open spec fn success_predicate(f: FilterView) -> Seq<Predicate> {
    one_if(f.success is Some, Predicate::Is("success"@, ValueView::Boolean(f.success->0)))
}

/// The condition on the text of an entry, if a filter has one.
pub open spec fn search_predicate(f: FilterView) -> Seq<Predicate> {
    one_if(
        f.search is Some,
        Predicate::AnyLike("command"@, "tool_name"@, "output"@, like_pattern(f.search->0)),
    )
}

/// The condition on the earliest time, if a filter has one.
pub open spec fn from_predicate(f: FilterView) -> Seq<Predicate> {
    one_if(f.from is Some, Predicate::AtLeast("timestamp"@, f.from->0))
}

/// The condition on the latest time, if a filter has one.
pub open spec fn to_predicate(f: FilterView) -> Seq<Predicate> {
    one_if(f.to is Some, Predicate::AtMost("timestamp"@, f.to->0))
}

/// The conditions that a filter asks for, in the order in which they are written.
pub open spec fn predicates(f: FilterView) -> Seq<Predicate> {
    server_predicate(f) + session_predicate(f) + source_predicate(f) + success_predicate(f)
        + search_predicate(f) + from_predicate(f) + to_predicate(f)
}

/// How conditions are written, with the values of their parameters.
pub open spec fn written(predicates: Seq<Predicate>) -> Seq<Condition> {
    predicates.map_values(|p: Predicate| Condition { clause: p.text(), binds: p.binds() })
}

/// Whether an entry meets the conditions of a filter.
pub open spec fn passes(f: FilterView, entry: Row) -> bool {
    forall|i: int| 0 <= i < predicates(f).len() ==> (#[trigger] predicates(f)[i]).holds(entry)
}

/// Newest entries first.
pub open spec fn newest_first() -> Order {
    Order::Descending(Key::Column("timestamp"@))
}

/// The text of a listing: conditions, order and page.
pub open spec fn listing_text(f: FilterView) -> Seq<char> {
    "SELECT * FROM "@ + "audit_logs"@ + " "@ + where_text(clauses(written(predicates(f))))
        + newest_first().text() + " LIMIT ? OFFSET ?"@
}

/// How the database reads points in time does not matter for an order by a plain column.
pub open spec fn any_datetime() -> spec_fn(Cell) -> Cell {
    |value: Cell| value
}

/// Whether `entries` are all entries that meet the conditions of a filter, newest first.
pub open spec fn is_listing(f: FilterView, log: Table, entries: Seq<Row>) -> bool {
    &&& entries.to_multiset() == log.filter(|entry: Row| passes(f, entry)).to_multiset()
    &&& newest_first().holds(entries, any_datetime())
}

/// The part of some rows that begins after `start` of them and holds at most `size`.
pub open spec fn window(rows: Seq<Row>, start: int, size: int) -> Seq<Row> {
    let from = if start < rows.len() {
        start
    } else {
        rows.len() as int
    };
    let to = if start + size < rows.len() {
        start + size
    } else {
        rows.len() as int
    };
    rows.subrange(from, to)
}

/// Whether `page` is an answer to the listing that a filter asks for. Entries with the same time
/// may stand in any order.
pub open spec fn answers_listing(f: FilterView, log: Table, page: Seq<Row>) -> bool {
    exists|entries: Seq<Row>| #[trigger]
        is_listing(f, log, entries) && page == window(
            entries,
            page_start(f.offset) as int,
            page_size(f.limit) as int,
        )
}

/// The texts of single conditions.
proof fn lemma_clause_texts()
    ensures
        SERVER_CLAUSE@ == "server_id"@ + " = ?"@,
        SESSION_CLAUSE@ == "session_id"@ + " = ?"@,
        SOURCE_CLAUSE@ == "source"@ + " = ?"@,
        SUCCESS_CLAUSE@ == "success"@ + " = ?"@,
        FROM_CLAUSE@ == "timestamp"@ + " >= ?"@,
        TO_CLAUSE@ == "timestamp"@ + " <= ?"@,
{
    reveal_strlit("server_id = ?");
    reveal_strlit("session_id = ?");
    reveal_strlit("source = ?");
    reveal_strlit("success = ?");
    reveal_strlit("timestamp >= ?");
    reveal_strlit("timestamp <= ?");
    reveal_strlit("server_id");
    reveal_strlit("session_id");
    reveal_strlit("source");
    reveal_strlit("success");
    reveal_strlit("timestamp");
    reveal_strlit(" = ?");
    reveal_strlit(" >= ?");
    reveal_strlit(" <= ?");
    assert(SERVER_CLAUSE@ =~= "server_id"@ + " = ?"@);
    assert(SESSION_CLAUSE@ =~= "session_id"@ + " = ?"@);
    assert(SOURCE_CLAUSE@ =~= "source"@ + " = ?"@);
    assert(SUCCESS_CLAUSE@ =~= "success"@ + " = ?"@);
    assert(FROM_CLAUSE@ =~= "timestamp"@ + " >= ?"@);
    assert(TO_CLAUSE@ =~= "timestamp"@ + " <= ?"@);
}

/// The text of the condition on the text of an entry.
proof fn lemma_search_text()
    ensures
        SEARCH_CLAUSE@ == "("@ + "command"@ + " LIKE ? OR "@ + "tool_name"@ + " LIKE ? OR "@
            + "output"@ + " LIKE ?)"@,
{
    let s = SEARCH_CLAUSE@;
    reveal_strlit("(command LIKE ? OR tool_name LIKE ? OR output LIKE ?)");
    reveal_strlit("(");
    reveal_strlit("command");
    reveal_strlit("tool_name");
    reveal_strlit("output");
    reveal_strlit(" LIKE ? OR ");
    reveal_strlit(" LIKE ?)");
    assert(s.subrange(0, 1) =~= "("@);
    assert(s.subrange(1, 8) =~= "command"@);
    assert(s.subrange(8, 19) =~= " LIKE ? OR "@);
    assert(s.subrange(19, 28) =~= "tool_name"@);
    assert(s.subrange(28, 39) =~= " LIKE ? OR "@);
    assert(s.subrange(39, 45) =~= "output"@);
    assert(s.subrange(45, 53) =~= " LIKE ?)"@);
    assert(s =~= s.subrange(0, 1) + s.subrange(1, 8) + s.subrange(8, 19) + s.subrange(19, 28)
        + s.subrange(28, 39) + s.subrange(39, 45) + s.subrange(45, 53));
}

/// The start and the end of a listing.
proof fn lemma_frame_texts()
    ensures
        AUDIT_QUERY_HEAD@ == "SELECT * FROM "@ + "audit_logs"@ + " "@,
        AUDIT_QUERY_TAIL@ == newest_first().text() + " LIMIT ? OFFSET ?"@,
{
    let s = AUDIT_QUERY_HEAD@;
    let t = AUDIT_QUERY_TAIL@;
    reveal_strlit("SELECT * FROM audit_logs ");
    reveal_strlit("SELECT * FROM ");
    reveal_strlit("audit_logs");
    reveal_strlit(" ");
    reveal_strlit(" ORDER BY timestamp DESC LIMIT ? OFFSET ?");
    reveal_strlit(" ORDER BY ");
    reveal_strlit("timestamp");
    reveal_strlit(" DESC");
    reveal_strlit(" LIMIT ? OFFSET ?");
    assert(s.subrange(0, 14) =~= "SELECT * FROM "@);
    assert(s.subrange(14, 24) =~= "audit_logs"@);
    assert(s.subrange(24, 25) =~= " "@);
    assert(s =~= s.subrange(0, 14) + s.subrange(14, 24) + s.subrange(24, 25));
    assert(t.subrange(0, 10) =~= " ORDER BY "@);
    assert(t.subrange(10, 19) =~= "timestamp"@);
    assert(t.subrange(19, 24) =~= " DESC"@);
    assert(t.subrange(24, 41) =~= " LIMIT ? OFFSET ?"@);
    assert(t =~= t.subrange(0, 10) + t.subrange(10, 19) + t.subrange(19, 24) + t.subrange(24, 41));
}

/// One condition after the other, as they are written.
proof fn lemma_written_concat(a: Seq<Predicate>, b: Seq<Predicate>)
    ensures
        written(a + b) == written(a) + written(b),
{
    assert(written(a + b) =~= written(a) + written(b));
}

/// The conditions of a listing are those of its filter.
proof fn lemma_conditions_written(f: FilterView)
    ensures
        conditions(f) == written(predicates(f)),
{
    let p1 = server_predicate(f);
    let p2 = session_predicate(f);
    let p3 = source_predicate(f);
    let p4 = success_predicate(f);
    let p5 = search_predicate(f);
    let p6 = from_predicate(f);
    let p7 = to_predicate(f);
    lemma_clause_texts();
    lemma_search_text();
    lemma_written_concat(p1, p2);
    lemma_written_concat(p1 + p2, p3);
    lemma_written_concat(p1 + p2 + p3, p4);
    lemma_written_concat(p1 + p2 + p3 + p4, p5);
    lemma_written_concat(p1 + p2 + p3 + p4 + p5, p6);
    lemma_written_concat(p1 + p2 + p3 + p4 + p5 + p6, p7);
    assert(written(p1) =~= server_condition(f.server_id));
    assert(written(p2) =~= text_condition(SESSION_CLAUSE@, f.session_id));
    assert(written(p3) =~= text_condition(SOURCE_CLAUSE@, f.source));
    assert(written(p4) =~= success_condition(f.success));
    assert(written(p5) =~= search_condition(f.search));
    assert(written(p6) =~= text_condition(FROM_CLAUSE@, f.from));
    assert(written(p7) =~= text_condition(TO_CLAUSE@, f.to));
}

/// The statement for a listing is written as its conditions, its order and its page are, and binds
/// their values.
pub proof fn law_listing_is_written_as_it_is_meant(f: FilterView)
    ensures
        audit_query(f).sql == listing_text(f),
        audit_query(f).binds == flat_binds(written(predicates(f))).push(
            ValueView::Integer(page_size(f.limit)),
        ).push(ValueView::Integer(page_start(f.offset))),
{
    lemma_conditions_written(f);
    lemma_frame_texts();
    let conds = where_text(clauses(written(predicates(f))));
    let order = newest_first().text();
    assert(AUDIT_QUERY_HEAD@ + conds + (order + " LIMIT ? OFFSET ?"@) =~= AUDIT_QUERY_HEAD@ + conds
        + order + " LIMIT ? OFFSET ?"@);
}

/// What it means for an entry to meet the conditions of a filter: those that the filter has, each
/// on its column.
pub proof fn law_filter_selects_by_its_fields(f: FilterView, entry: Row)
    ensures
        passes(f, entry) <==> {
            &&& f.server_id matches Some(i) ==> cell(entry, "server_id"@) == Cell::Integer(i as int)
            &&& f.session_id matches Some(t) ==> cell(entry, "session_id"@) == Cell::Text(t)
            &&& f.source matches Some(t) ==> cell(entry, "source"@) == Cell::Text(t)
            &&& f.success matches Some(b) ==> cell(entry, "success"@) == Cell::Integer(
                if b { 1 } else { 0 },
            )
            &&& f.search matches Some(t) ==> {
                ||| cell_like(like_pattern(t), cell(entry, "command"@))
                ||| cell_like(like_pattern(t), cell(entry, "tool_name"@))
                ||| cell_like(like_pattern(t), cell(entry, "output"@))
            }
            &&& f.from matches Some(t) ==> cell(entry, "timestamp"@) !is Null && cell_le(
                Cell::Text(t),
                cell(entry, "timestamp"@),
            )
            &&& f.to matches Some(t) ==> cell(entry, "timestamp"@) !is Null && cell_le(
                cell(entry, "timestamp"@),
                Cell::Text(t),
            )
        },
{
    lemma_passes_each(f, entry);
    lemma_each_holds(f, entry);
}

/// Whether an entry meets all conditions.
#[verifier::opaque]
spec fn all_hold(predicates: Seq<Predicate>, entry: Row) -> bool {
    forall|i: int| 0 <= i < predicates.len() ==> (#[trigger] predicates[i]).holds(entry)
}

proof fn lemma_all_hold_concat(a: Seq<Predicate>, b: Seq<Predicate>, entry: Row)
    ensures
        all_hold(a + b, entry) <==> all_hold(a, entry) && all_hold(b, entry),
{
    reveal(all_hold);
    let all = a + b;
    if all_hold(all, entry) {
        assert forall|i: int| 0 <= i < a.len() implies (#[trigger] a[i]).holds(entry) by {
            assert(all[i] == a[i]);
        }
        assert forall|i: int| 0 <= i < b.len() implies (#[trigger] b[i]).holds(entry) by {
            assert(all[a.len() + i] == b[i]);
        }
    }
}

proof fn lemma_all_hold_one(applies: bool, predicate: Predicate, entry: Row)
    ensures
        all_hold(one_if(applies, predicate), entry) <==> (applies ==> predicate.holds(entry)),
{
    reveal(all_hold);
    if applies {
        assert(one_if(applies, predicate)[0] == predicate);
    }
}

/// An entry passes when it meets each single condition of a filter.
proof fn lemma_passes_each(f: FilterView, entry: Row)
    ensures
        passes(f, entry) <==> all_hold(server_predicate(f), entry) && all_hold(
            session_predicate(f),
            entry,
        ) && all_hold(source_predicate(f), entry) && all_hold(success_predicate(f), entry)
            && all_hold(search_predicate(f), entry) && all_hold(from_predicate(f), entry)
            && all_hold(to_predicate(f), entry),
{
    let p1 = server_predicate(f);
    let p2 = session_predicate(f);
    let p3 = source_predicate(f);
    let p4 = success_predicate(f);
    let p5 = search_predicate(f);
    let p6 = from_predicate(f);
    let p7 = to_predicate(f);
    lemma_all_hold_concat(p1, p2, entry);
    lemma_all_hold_concat(p1 + p2, p3, entry);
    lemma_all_hold_concat(p1 + p2 + p3, p4, entry);
    lemma_all_hold_concat(p1 + p2 + p3 + p4, p5, entry);
    lemma_all_hold_concat(p1 + p2 + p3 + p4 + p5, p6, entry);
    lemma_all_hold_concat(p1 + p2 + p3 + p4 + p5 + p6, p7, entry);
    assert(passes(f, entry) <==> all_hold(predicates(f), entry)) by {
        reveal(all_hold);
    }
}

/// What the single conditions of a filter say of an entry.
proof fn lemma_each_holds(f: FilterView, entry: Row)
    ensures
        all_hold(server_predicate(f), entry) <==> (f.server_id is Some
            ==> Predicate::Is("server_id"@, ValueView::Integer(f.server_id->0)).holds(entry)),
        all_hold(session_predicate(f), entry) <==> (f.session_id is Some
            ==> Predicate::Is("session_id"@, ValueView::Text(f.session_id->0)).holds(entry)),
        all_hold(source_predicate(f), entry) <==> (f.source is Some
            ==> Predicate::Is("source"@, ValueView::Text(f.source->0)).holds(entry)),
        all_hold(success_predicate(f), entry) <==> (f.success is Some
            ==> Predicate::Is("success"@, ValueView::Boolean(f.success->0)).holds(entry)),
        all_hold(search_predicate(f), entry) <==> (f.search is Some
            ==> Predicate::AnyLike("command"@, "tool_name"@, "output"@, like_pattern(f.search->0)).holds(entry)),
        all_hold(from_predicate(f), entry) <==> (f.from is Some
            ==> Predicate::AtLeast("timestamp"@, f.from->0).holds(entry)),
        all_hold(to_predicate(f), entry) <==> (f.to is Some
            ==> Predicate::AtMost("timestamp"@, f.to->0).holds(entry)),
{
    lemma_all_hold_one(
        f.server_id is Some,
        Predicate::Is("server_id"@, ValueView::Integer(f.server_id->0)),
        entry,
    );
    lemma_all_hold_one(
        f.session_id is Some,
        Predicate::Is("session_id"@, ValueView::Text(f.session_id->0)),
        entry,
    );
    lemma_all_hold_one(
        f.source is Some,
        Predicate::Is("source"@, ValueView::Text(f.source->0)),
        entry,
    );
    lemma_all_hold_one(
        f.success is Some,
        Predicate::Is("success"@, ValueView::Boolean(f.success->0)),
        entry,
    );
    lemma_all_hold_one(
        f.search is Some,
        Predicate::AnyLike("command"@, "tool_name"@, "output"@, like_pattern(f.search->0)),
        entry,
    );
    lemma_all_hold_one(
        f.from is Some,
        Predicate::AtLeast("timestamp"@, f.from->0),
        entry,
    );
    lemma_all_hold_one(
        f.to is Some,
        Predicate::AtMost("timestamp"@, f.to->0),
        entry,
    );
}

/// What a listing shows: entries of the log that meet the conditions of the filter, none more often
/// than the log has it, newest first. It skips as many as the page start says and shows as many of
/// the others as the page holds. On the first page nothing is left out that is newer than what is
/// shown.
pub proof fn law_listing_shows_the_page(f: FilterView, log: Table, page: Seq<Row>)
    requires
        answers_listing(f, log, page),
    ensures
        forall|entry: Row| #[trigger]
            page.contains(entry) ==> log.contains(entry) && passes(f, entry),
        page.to_multiset().subset_of(log.to_multiset()),
        descending(page, Key::Column("timestamp"@), any_datetime()),
        page.len() <= page_size(f.limit),
        ({
            let found = log.filter(|entry: Row| passes(f, entry)).len();
            let left = if page_start(f.offset) < found {
                found - page_start(f.offset)
            } else {
                0
            };
            page.len() == if left < page_size(f.limit) {
                left
            } else {
                page_size(f.limit) as int
            }
        }),
        page_start(f.offset) == 0 ==> forall|entry: Row, i: int|
            log.contains(entry) && passes(f, entry) && !page.contains(entry) && 0 <= i < page.len()
                ==> cell_le(
                #[trigger] cell(entry, "timestamp"@),
                cell(#[trigger] page[i], "timestamp"@),
            ),
{
    broadcast use vstd::seq_lib::group_to_multiset_ensures;

    let keep = |entry: Row| passes(f, entry);
    let start = page_start(f.offset) as int;
    let size = page_size(f.limit) as int;
    let entries = choose|entries: Seq<Row>| #[trigger]
        is_listing(f, log, entries) && page == window(entries, start, size);
    assert(entries.len() == entries.to_multiset().len());
    assert(log.filter(keep).len() == log.filter(keep).to_multiset().len());
    assert forall|entry: Row|
        entries.to_multiset().count(entry) <= log.to_multiset().count(entry) && (
        #[trigger] entries.contains(entry) <==> log.contains(entry) && passes(f, entry)) by {
        lemma_filter_count(log, keep, entry);
        assert(entries.to_multiset().contains(entry) <==> entries.contains(entry));
        assert(log.to_multiset().contains(entry) <==> log.contains(entry));
    }
    let from = if start < entries.len() {
        start
    } else {
        entries.len() as int
    };
    assert forall|i: int| 0 <= i < page.len() implies #[trigger] page[i] == entries[from + i] by {}
    assert forall|entry: Row| #[trigger] page.contains(entry) implies log.contains(entry) && passes(
        f,
        entry,
    ) by {
        let i = choose|i: int| 0 <= i < page.len() && page[i] == entry;
        assert(page[i] == entries[from + i]);
        assert(entries.contains(entry));
    }
    assert forall|entry: Row| #[trigger]
        page.to_multiset().count(entry) <= log.to_multiset().count(entry) by {
        lemma_subrange_count(entries, from, from + page.len(), entry);
        lemma_filter_count(log, keep, entry);
    }
    if start == 0 {
        assert forall|entry: Row, i: int|
            log.contains(entry) && passes(f, entry) && !page.contains(entry) && 0 <= i
                < page.len() implies cell_le(
            #[trigger] cell(entry, "timestamp"@),
            cell(#[trigger] page[i], "timestamp"@),
        ) by {
            assert(entries.contains(entry));
            let j = choose|j: int| 0 <= j < entries.len() && entries[j] == entry;
            if j < page.len() {
                assert(page[j] == entries[j]);
                assert(page.contains(entry));
            }
            assert(page[i] == entries[i]);
            let key = Key::Column("timestamp"@);
            assert(cell_le(
                key.of(entries[j], any_datetime()),
                key.of(entries[i], any_datetime()),
            ));
        }
    }
}

/// A part of some rows has none of them more often than they do.
proof fn lemma_subrange_count(rows: Seq<Row>, from: int, to: int, row: Row)
    requires
        0 <= from <= to <= rows.len(),
    ensures
        rows.subrange(from, to).to_multiset().count(row) <= rows.to_multiset().count(row),
{
    let a = rows.take(from);
    let b = rows.subrange(from, to);
    let c = rows.skip(to);
    assert(rows =~= a + b + c);
    vstd::seq_lib::lemma_multiset_commutative(a + b, c);
    vstd::seq_lib::lemma_multiset_commutative(a, b);
}

/// The listing of a session holds all entries of that session and no others, each as often as the
/// log has it, oldest first.
pub proof fn law_session_listing_is_complete(
    log: Table,
    session_id: Seq<char>,
    datetime: spec_fn(Cell) -> Cell,
    entries: Seq<Row>,
)
    requires
        session_select().answers(log, seq![ValueView::Text(session_id)], datetime, entries),
    ensures
        query(SESSION_AUDIT_LOGS@).bind(ValueView::Text(session_id)) == session_select().statement(
            seq![ValueView::Text(session_id)],
        ),
        forall|entry: Row| #[trigger]
            entries.contains(entry) <==> log.contains(entry) && cell(entry, "session_id"@)
                == Cell::Text(session_id),
        forall|entry: Row|
            cell(entry, "session_id"@) == Cell::Text(session_id) ==> #[trigger]
            entries.to_multiset().count(entry) == log.to_multiset().count(entry),
        ascending(entries, Key::Column("timestamp"@), datetime),
{
    let binds = seq![ValueView::Text(session_id)];
    lemma_session_audit_logs_text();
    assert(query(SESSION_AUDIT_LOGS@).bind(ValueView::Text(session_id)).binds =~= binds);
    lemma_answer_rows(session_select(), log, binds, datetime, entries);
    assert forall|entry: Row| #[trigger]
        session_select().wants(entry, binds) <==> cell(entry, "session_id"@) == Cell::Text(
            session_id,
        ) by {
        assert(session_select().conditions[0].expr.value(binds, seq![]) == Cell::Text(session_id));
    }
}

/// How many entries have an outcome.
pub open spec fn with_outcome(log: Table, outcome: Seq<char>) -> nat {
    log.filter(|entry: Row| cell(entry, "outcome"@) == Cell::Text(outcome)).len()
}

/// A count by outcome counts the entries with that outcome.
proof fn lemma_outcome_count(log: Table, outcome: Seq<char>)
    ensures
        outcome_count(outcome).result(log) == with_outcome(log, outcome),
    decreases log.len(),
{
    reveal(Seq::filter);
    let conditions = outcome_count(outcome).conditions;
    if log.len() > 0 {
        lemma_outcome_count(log.drop_last(), outcome);
        assert(conditions[0].expr.value(seq![], seq![]) == Cell::Text(outcome));
        assert(meets(log.last(), conditions, seq![], seq![]) <==> cell(log.last(), "outcome"@)
            == Cell::Text(outcome));
    }
}

/// Whether an entry has one of the four outcomes.
pub open spec fn has_known_outcome(entry: Row) -> bool {
    ||| cell(entry, "outcome"@) == Cell::Text("succeeded"@)
    ||| cell(entry, "outcome"@) == Cell::Text("failed"@)
    ||| cell(entry, "outcome"@) == Cell::Text("unknown"@)
    ||| cell(entry, "outcome"@) == Cell::Text("pending"@)
}

/// The statistics count all entries, and those with each outcome. Where every entry has one of the
/// four outcomes, these add up to all entries.
pub proof fn law_counts_add_up(log: Table)
    ensures
        query(COUNT_AUDIT_LOGS@) == entry_count().statement(seq![]),
        query(COUNT_SUCCEEDED@) == outcome_count("succeeded"@).statement(seq![]),
        query(COUNT_FAILED@) == outcome_count("failed"@).statement(seq![]),
        query(COUNT_UNKNOWN@) == outcome_count("unknown"@).statement(seq![]),
        query(COUNT_PENDING@) == outcome_count("pending"@).statement(seq![]),
        entry_count().result(log) == log.len(),
        outcome_count("succeeded"@).result(log) == with_outcome(log, "succeeded"@),
        outcome_count("failed"@).result(log) == with_outcome(log, "failed"@),
        outcome_count("unknown"@).result(log) == with_outcome(log, "unknown"@),
        outcome_count("pending"@).result(log) == with_outcome(log, "pending"@),
        (forall|i: int| 0 <= i < log.len() ==> has_known_outcome(#[trigger] log[i]))
            ==> entry_count().result(log) == outcome_count("succeeded"@).result(log)
            + outcome_count("failed"@).result(log) + outcome_count("unknown"@).result(log)
            + outcome_count("pending"@).result(log),
{
    lemma_count_audit_logs_text();
    lemma_count_succeeded_text();
    lemma_count_failed_text();
    lemma_count_unknown_text();
    lemma_count_pending_text();
    lemma_outcome_count(log, "succeeded"@);
    lemma_outcome_count(log, "failed"@);
    lemma_outcome_count(log, "unknown"@);
    lemma_outcome_count(log, "pending"@);
    lemma_filter_all(log, |row: Row| meets(row, entry_count().conditions, seq![], seq![]));
    if forall|i: int| 0 <= i < log.len() ==> has_known_outcome(#[trigger] log[i]) {
        lemma_outcomes_add_up(log);
    }
}

proof fn lemma_outcomes_add_up(log: Table)
    requires
        forall|i: int| 0 <= i < log.len() ==> has_known_outcome(#[trigger] log[i]),
    ensures
        log.len() == with_outcome(log, "succeeded"@) + with_outcome(log, "failed"@) + with_outcome(
            log,
            "unknown"@,
        ) + with_outcome(log, "pending"@),
    decreases log.len(),
{
    reveal(Seq::filter);
    reveal_strlit("succeeded");
    reveal_strlit("failed");
    reveal_strlit("unknown");
    reveal_strlit("pending");
    assert("succeeded"@.len() == 9 && "failed"@.len() == 6 && "unknown"@.len() == 7
        && "pending"@.len() == 7);
    assert("unknown"@[0] != "pending"@[0]);
    if log.len() > 0 {
        let front = log.drop_last();
        assert forall|i: int| 0 <= i < front.len() implies has_known_outcome(
            #[trigger] front[i],
        ) by {
            assert(front[i] == log[i]);
        }
        lemma_outcomes_add_up(front);
        assert(has_known_outcome(log[log.len() - 1]));
    }
}

/// Whether two texts are equal but for the case of the letters A to Z.
pub open spec fn same_but_for_case(a: Seq<char>, b: Seq<char>) -> bool {
    a.len() == b.len() && forall|i: int|
        0 <= i < a.len() ==> lower_case(#[trigger] a[i]) == lower_case(b[i])
}

/// `%` matches any text.
proof fn lemma_percent_matches_all(s: Seq<char>)
    ensures
        like(seq!['%'], s),
    decreases s.len(),
{
    reveal_with_fuel(like, 2);
    assert(seq!['%'].skip(1) =~= Seq::<char>::empty());
    if s.len() > 0 {
        lemma_percent_matches_all(s.skip(1));
    }
}

/// A pattern that starts with `%` matches where the rest of it matches the end of the text.
proof fn lemma_percent(rest: Seq<char>, s: Seq<char>)
    ensures
        like(seq!['%'] + rest, s) <==> exists|i: int|
            0 <= i <= s.len() && like(rest, #[trigger] s.skip(i)),
    decreases s.len(),
{
    let p = seq!['%'] + rest;
    assert(p.skip(1) =~= rest);
    assert(s.skip(0) =~= s);
    if s.len() > 0 {
        lemma_percent(rest, s.skip(1));
        if like(p, s) && !like(rest, s) {
            let i = choose|i: int|
                0 <= i <= s.skip(1).len() && like(rest, #[trigger] s.skip(1).skip(i));
            assert(s.skip(1).skip(i) =~= s.skip(i + 1));
        }
        if exists|i: int| 0 <= i <= s.len() && like(rest, #[trigger] s.skip(i)) {
            let i = choose|i: int| 0 <= i <= s.len() && like(rest, #[trigger] s.skip(i));
            if i > 0 {
                assert(s.skip(1).skip(i - 1) =~= s.skip(i));
            }
        }
    } else if exists|i: int| 0 <= i <= s.len() && like(rest, #[trigger] s.skip(i)) {
        let i = choose|i: int| 0 <= i <= s.len() && like(rest, #[trigger] s.skip(i));
        assert(s.skip(i) =~= s);
    }
}

/// Plain text at the start of a pattern has to stand at the start of the text.
proof fn lemma_plain_prefix(t: Seq<char>, rest: Seq<char>, s: Seq<char>)
    requires
        forall|i: int| 0 <= i < t.len() ==> #[trigger] t[i] != '%' && t[i] != '_',
    ensures
        like(t + rest, s) <==> t.len() <= s.len() && same_but_for_case(t, s.take(t.len() as int))
            && like(rest, s.skip(t.len() as int)),
    decreases t.len(),
{
    let p = t + rest;
    if t.len() == 0 {
        assert(p =~= rest);
        assert(s.skip(0) =~= s);
    } else {
        assert(p[0] == t[0]);
        assert(p.skip(1) =~= t.skip(1) + rest);
        if s.len() > 0 {
            let u = t.skip(1);
            let v = s.skip(1);
            lemma_plain_prefix(u, rest, v);
            if t.len() <= s.len() {
                let head = s.take(t.len() as int);
                let tail = v.take(u.len() as int);
                assert(v.skip(u.len() as int) =~= s.skip(t.len() as int));
                assert(tail =~= head.skip(1));
                if same_but_for_case(t, head) {
                    assert forall|i: int| 0 <= i < u.len() implies lower_case(#[trigger] u[i])
                        == lower_case(tail[i]) by {
                        assert(u[i] == t[i + 1]);
                    }
                    assert(lower_case(t[0]) == lower_case(head[0]));
                }
                if same_but_for_case(u, tail) && lower_case(t[0]) == lower_case(s[0]) {
                    assert forall|i: int| 0 <= i < t.len() implies lower_case(#[trigger] t[i])
                        == lower_case(head[i]) by {
                        if i > 0 {
                            assert(u[i - 1] == t[i] && tail[i - 1] == head[i]);
                        }
                    }
                }
            }
        }
    }
}

/// Searching for text without wildcards finds the texts that contain it, whatever the case of the
/// letters A to Z.
pub proof fn law_search_finds_what_contains_the_text(t: Seq<char>, s: Seq<char>)
    requires
        forall|i: int| 0 <= i < t.len() ==> #[trigger] t[i] != '%' && t[i] != '_',
    ensures
        like(like_pattern(t), s) <==> exists|i: int|
            0 <= i <= s.len() - t.len() && same_but_for_case(
                t,
                #[trigger] s.subrange(i, i + t.len()),
            ),
{
    reveal_strlit("%");
    assert("%"@ =~= seq!['%']);
    let rest = t + seq!['%'];
    assert(like_pattern(t) =~= seq!['%'] + rest);
    lemma_percent(rest, s);
    if like(like_pattern(t), s) {
        let i = choose|i: int| 0 <= i <= s.len() && like(rest, #[trigger] s.skip(i));
        lemma_plain_prefix(t, seq!['%'], s.skip(i));
        assert(s.skip(i).take(t.len() as int) =~= s.subrange(i, i + t.len()));
    }
    if exists|i: int|
        0 <= i <= s.len() - t.len() && same_but_for_case(t, #[trigger] s.subrange(i, i + t.len())) {
        let i = choose|i: int|
            0 <= i <= s.len() - t.len() && same_but_for_case(
                t,
                #[trigger] s.subrange(i, i + t.len()),
            );
        assert(s.skip(i).take(t.len() as int) =~= s.subrange(i, i + t.len()));
        lemma_percent_matches_all(s.skip(i).skip(t.len() as int));
        lemma_plain_prefix(t, seq!['%'], s.skip(i));
        assert(like(rest, s.skip(i)));
    }
}

} // verus!

//! Tables, and what SQL statements ask of them.
//!
//! A form of statement has a text, which is what the database gets, and a meaning, which is what
//! the text asks for. Laws about stored rows are stated over the meaning. That the database does
//! what it is asked is not proved here.
use vstd::prelude::*;

use crate::decimal::decimal;
use crate::sql::{StatementView, ValueView};

verus! {

/// A stored value.
pub enum Cell {
    Null,
    Integer(int),
    Text(Seq<char>),
}

/// How a bound value is stored. Truth values are stored as 1 and 0.
pub open spec fn stored(value: ValueView) -> Cell {
    match value {
        ValueView::Null => Cell::Null,
        ValueView::Integer(i) => Cell::Integer(i as int),
        ValueView::Boolean(b) => Cell::Integer(if b { 1 } else { 0 }),
        ValueView::Text(t) => Cell::Text(t),
    }
}

/// How the text of a string is stored, where there is one.
pub open spec fn string_cell(t: Option<String>) -> Cell {
    match t {
        Some(s) => Cell::Text(s@),
        None => Cell::Null,
    }
}

/// How a borrowed text is stored, where there is one.
pub open spec fn str_cell(t: Option<&str>) -> Cell {
    match t {
        Some(s) => Cell::Text(s@),
        None => Cell::Null,
    }
}

/// How a number is stored, where there is one.
pub open spec fn integer_cell(i: Option<i64>) -> Cell {
    match i {
        Some(n) => Cell::Integer(n as int),
        None => Cell::Null,
    }
}

/// One more than a stored number. Text, and what does not fit 64 bits, is not modelled.
pub open spec fn plus_one(value: Cell) -> Cell {
    match value {
        Cell::Null => Cell::Null,
        Cell::Integer(i) => if i < i64::MAX {
            Cell::Integer(i + 1)
        } else {
            arbitrary()
        },
        Cell::Text(_) => arbitrary(),
    }
}

/// A row: its values by column.
pub type Row = Map<Seq<char>, Cell>;

/// The rows of a table.
pub type Table = Seq<Row>;

/// The value of a row in a column.
pub open spec fn cell(row: Row, column: Seq<char>) -> Cell {
    if row.contains_key(column) {
        row[column]
    } else {
        Cell::Null
    }
}

/// Parts, each with what is written before it.
pub open spec fn led_upto(leads: Seq<Seq<char>>, parts: Seq<Seq<char>>, n: int) -> Seq<char>
    decreases n,
{
    if n <= 0 {
        seq![]
    } else {
        led_upto(leads, parts, n - 1) + (leads[n - 1] + parts[n - 1])
    }
}

/// Parts, each with what is written before it.
pub open spec fn led(leads: Seq<Seq<char>>, parts: Seq<Seq<char>>) -> Seq<char> {
    led_upto(leads, parts, parts.len() as int)
}

/// What is written before each of `n` parts when `sep` stands between them.
pub open spec fn between(sep: Seq<char>, n: nat) -> Seq<Seq<char>> {
    Seq::new(n, |i: int| if i == 0 { seq![] } else { sep })
}

/// Parts with `sep` between them.
pub open spec fn separated(sep: Seq<char>, parts: Seq<Seq<char>>) -> Seq<char> {
    led(between(sep, parts.len()), parts)
}

/// How the time at which a statement is run is written.
pub open spec fn now_text() -> Seq<char> {
    "strftime('%Y-%m-%dT%H:%M:%fZ','now')"@
}

/// An expression of a statement.
pub enum Expr {
    /// The parameter with this number, counted from 0.
    Parameter(int),
    /// A literal text.
    Text(Seq<char>),
    /// A literal number.
    Integer(nat),
    Null,
    /// The time at which the statement is run.
    Now,
}

impl Expr {
    /// How the expression is written.
    pub open spec fn text(self) -> Seq<char> {
        match self {
            Expr::Parameter(_) => "?"@,
            Expr::Text(t) => "'"@ + t + "'"@,
            Expr::Integer(n) => decimal(n),
            Expr::Null => "NULL"@,
            Expr::Now => now_text(),
        }
    }

    /// The value of the expression in a statement with these values bound, run at the time `now`.
    pub open spec fn value(self, binds: Seq<ValueView>, now: Seq<char>) -> Cell {
        match self {
            Expr::Parameter(n) => stored(binds[n]),
            Expr::Text(t) => Cell::Text(t),
            Expr::Integer(n) => Cell::Integer(n as int),
            Expr::Null => Cell::Null,
            Expr::Now => Cell::Text(now),
        }
    }
}

/// A column and an expression: an assignment, or the condition that they are equal.
pub struct Term {
    pub column: Seq<char>,
    pub expr: Expr,
}

/// How terms are written, with `sign` between the column and the expression.
pub open spec fn term_texts(terms: Seq<Term>, sign: Seq<char>) -> Seq<Seq<char>> {
    terms.map_values(|t: Term| t.column + sign + t.expr.text())
}

/// The columns of terms.
pub open spec fn columns_of(terms: Seq<Term>) -> Seq<Seq<char>> {
    terms.map_values(|t: Term| t.column)
}

/// How the expressions of terms are written.
pub open spec fn expr_texts(terms: Seq<Term>) -> Seq<Seq<char>> {
    terms.map_values(|t: Term| t.expr.text())
}

/// The values of the expressions of terms.
pub open spec fn values_of(terms: Seq<Term>, binds: Seq<ValueView>, now: Seq<char>) -> Seq<Cell> {
    terms.map_values(|t: Term| t.expr.value(binds, now))
}

/// How many parameters there are among the first `n` terms.
pub open spec fn parameters_upto(terms: Seq<Term>, n: int) -> nat
    decreases n,
{
    if n <= 0 {
        0
    } else if terms[n - 1].expr is Parameter {
        parameters_upto(terms, n - 1) + 1
    } else {
        parameters_upto(terms, n - 1)
    }
}

/// Whether the parameters are numbered in the order in which they are written.
pub open spec fn numbered(terms: Seq<Term>) -> bool {
    forall|i: int|
        0 <= i < terms.len() ==> ((#[trigger] terms[i]).expr matches Expr::Parameter(n) ==> n
            == parameters_upto(terms, i))
}

/// Whether a row meets all conditions. Nothing equals NULL.
pub open spec fn meets(
    row: Row,
    conditions: Seq<Term>,
    binds: Seq<ValueView>,
    now: Seq<char>,
) -> bool {
    forall|i: int|
        0 <= i < conditions.len() ==> {
            let value = (#[trigger] conditions[i]).expr.value(binds, now);
            value !is Null && cell(row, conditions[i].column) == value
        }
}

/// A row after its columns were assigned values, one after the other.
pub open spec fn assigned(row: Row, columns: Seq<Seq<char>>, values: Seq<Cell>) -> Row
    decreases columns.len(),
{
    if columns.len() == 0 {
        row
    } else {
        assigned(row, columns.drop_last(), values.drop_last()).insert(columns.last(), values.last())
    }
}

/// The conditions of a statement, if it has any.
pub open spec fn where_part(conditions: Seq<Term>) -> Seq<char> {
    if conditions.len() == 0 {
        seq![]
    } else {
        " WHERE "@ + separated(" AND "@, term_texts(conditions, " = "@))
    }
}

/// An UPDATE statement.
pub struct Update {
    pub table: Seq<char>,
    /// The white space before each clause.
    pub gap: Seq<char>,
    pub assignments: Seq<Term>,
    pub conditions: Seq<Term>,
}

impl Update {
    /// The text of the statement.
    pub open spec fn text(self) -> Seq<char> {
        "UPDATE "@ + self.table + self.gap + "SET "@ + separated(
            ", "@,
            term_texts(self.assignments, "="@),
        ) + self.gap + "WHERE "@ + separated(" AND "@, term_texts(self.conditions, "="@))
    }

    /// The statement with its values.
    pub open spec fn statement(self, binds: Seq<ValueView>) -> StatementView {
        StatementView { sql: self.text(), binds }
    }

    /// Whether the statement applies to a row.
    pub open spec fn applies(self, row: Row, binds: Seq<ValueView>, now: Seq<char>) -> bool {
        meets(row, self.conditions, binds, now)
    }

    /// A row after the statement.
    pub open spec fn row_after(self, row: Row, binds: Seq<ValueView>, now: Seq<char>) -> Row {
        if self.applies(row, binds, now) {
            assigned(row, columns_of(self.assignments), values_of(self.assignments, binds, now))
        } else {
            row
        }
    }

    /// The table after the statement.
    pub open spec fn after(self, table: Table, binds: Seq<ValueView>, now: Seq<char>) -> Table {
        table.map_values(|row: Row| self.row_after(row, binds, now))
    }

    /// How many rows the statement changes.
    pub open spec fn changed(self, table: Table, binds: Seq<ValueView>, now: Seq<char>) -> nat {
        table.filter(|row: Row| self.applies(row, binds, now)).len()
    }
}

/// A DELETE statement.
pub struct Delete {
    pub table: Seq<char>,
    pub conditions: Seq<Term>,
}

impl Delete {
    /// The text of the statement.
    pub open spec fn text(self) -> Seq<char> {
        "DELETE FROM "@ + self.table + where_part(self.conditions)
    }

    /// The statement with its values.
    pub open spec fn statement(self, binds: Seq<ValueView>) -> StatementView {
        StatementView { sql: self.text(), binds }
    }

    /// The table after the statement.
    pub open spec fn after(self, table: Table, binds: Seq<ValueView>, now: Seq<char>) -> Table {
        table.filter(|row: Row| !meets(row, self.conditions, binds, now))
    }
}

/// An INSERT statement.
pub struct Insert {
    pub table: Seq<char>,
    /// The white space before the list of columns.
    pub space: Seq<char>,
    /// What is written before each column.
    pub leads: Seq<Seq<char>>,
    pub terms: Seq<Term>,
    /// The white space before each clause.
    pub gap: Seq<char>,
}

impl Insert {
    /// The text of the statement.
    pub open spec fn text(self) -> Seq<char> {
        "INSERT INTO "@ + self.table + self.space + "("@ + led(self.leads, columns_of(self.terms))
            + ")"@ + self.gap + "VALUES ("@ + separated(", "@, expr_texts(self.terms)) + ")"@
    }

    /// The text of the statement when it asks for the key of the new row.
    pub open spec fn text_returning(self, key: Seq<char>) -> Seq<char> {
        self.text() + self.gap + "RETURNING "@ + key
    }

    /// The row that the statement offers. What it does not name takes its default.
    pub open spec fn offered(self, binds: Seq<ValueView>, now: Seq<char>, defaults: Row) -> Row {
        assigned(defaults, columns_of(self.terms), values_of(self.terms, binds, now))
    }
}

/// What a column gets when the offered row has the key of a stored one.
pub enum Merge {
    /// What is offered for a column.
    Offered(Seq<char>),
    /// One more than what is offered for a column.
    NextOffered(Seq<char>),
    /// One more than what is stored in a column of the table.
    NextStored(Seq<char>, Seq<char>),
    /// A literal number.
    Integer(nat),
    /// The time at which the statement is run.
    Now,
}

impl Merge {
    /// How it is written.
    pub open spec fn text(self) -> Seq<char> {
        match self {
            Merge::Offered(column) => "excluded."@ + column,
            Merge::NextOffered(column) => "excluded."@ + column + " + 1"@,
            Merge::NextStored(table, column) => table + "."@ + column + " + 1"@,
            Merge::Integer(n) => decimal(n),
            Merge::Now => now_text(),
        }
    }

    /// Its value for a stored and an offered row.
    pub open spec fn value(self, row: Row, offered: Row, now: Seq<char>) -> Cell {
        match self {
            Merge::Offered(column) => cell(offered, column),
            Merge::NextOffered(column) => plus_one(cell(offered, column)),
            Merge::NextStored(_, column) => plus_one(cell(row, column)),
            Merge::Integer(n) => Cell::Integer(n as int),
            Merge::Now => Cell::Text(now),
        }
    }
}

/// A column and what it gets.
pub struct Merging {
    pub column: Seq<char>,
    pub merge: Merge,
}

/// The columns that get something.
pub open spec fn merged_columns(merges: Seq<Merging>) -> Seq<Seq<char>> {
    merges.map_values(|m: Merging| m.column)
}

/// How it is written what columns get.
pub open spec fn merge_texts(merges: Seq<Merging>) -> Seq<Seq<char>> {
    merges.map_values(|m: Merging| m.column + "="@ + m.merge.text())
}

/// What columns get for a stored and an offered row.
pub open spec fn merged_values(
    merges: Seq<Merging>,
    row: Row,
    offered: Row,
    now: Seq<char>,
) -> Seq<Cell> {
    merges.map_values(|m: Merging| m.merge.value(row, offered, now))
}

/// An INSERT statement that changes the stored row when there is one with the same key.
pub struct Upsert {
    pub insert: Insert,
    pub key: Seq<char>,
    /// What is written before each column that is changed.
    pub leads: Seq<Seq<char>>,
    pub merges: Seq<Merging>,
}

impl Upsert {
    /// The text of the statement.
    pub open spec fn text(self) -> Seq<char> {
        self.insert.text() + self.insert.gap + "ON CONFLICT("@ + self.key + ") DO UPDATE SET"@
            + led(self.leads, merge_texts(self.merges))
    }

    /// The statement with its values.
    pub open spec fn statement(self, binds: Seq<ValueView>) -> StatementView {
        StatementView { sql: self.text(), binds }
    }

    /// A stored row with the key of the offered one, after the statement.
    pub open spec fn merged(self, row: Row, offered: Row, now: Seq<char>) -> Row {
        assigned(
            row,
            merged_columns(self.merges),
            merged_values(self.merges, row, offered, now),
        )
    }

    /// The table after the statement. NULL is no key that another row could have.
    pub open spec fn after(
        self,
        table: Table,
        binds: Seq<ValueView>,
        now: Seq<char>,
        defaults: Row,
    ) -> Table {
        let offered = self.insert.offered(binds, now, defaults);
        let key = cell(offered, self.key);
        if key !is Null && exists|i: int|
            0 <= i < table.len() && cell(#[trigger] table[i], self.key) == key {
            table.map_values(
                |row: Row|
                    if cell(row, self.key) == key {
                        self.merged(row, offered, now)
                    } else {
                        row
                    },
            )
        } else {
            table.push(offered)
        }
    }
}

/// A statement that counts rows.
pub struct Count {
    pub table: Seq<char>,
    pub conditions: Seq<Term>,
}

impl Count {
    /// The text of the statement.
    pub open spec fn text(self) -> Seq<char> {
        "SELECT COUNT(*) AS c FROM "@ + self.table + where_part(self.conditions)
    }

    /// The statement with its values.
    pub open spec fn statement(self, binds: Seq<ValueView>) -> StatementView {
        StatementView { sql: self.text(), binds }
    }

    /// The number of rows that meet the conditions.
    pub open spec fn result(self, table: Table) -> nat {
        table.filter(|row: Row| meets(row, self.conditions, seq![], seq![])).len()
    }
}

/// The order of text: the first character in which two texts differ decides.
pub open spec fn text_le(a: Seq<char>, b: Seq<char>) -> bool
    decreases a.len(),
{
    ||| a.len() == 0
    ||| b.len() > 0 && (a[0] < b[0] || a[0] == b[0] && text_le(a.skip(1), b.skip(1)))
}

/// The order of stored values: NULL, then numbers, then text.
pub open spec fn cell_le(a: Cell, b: Cell) -> bool {
    match (a, b) {
        (Cell::Null, _) => true,
        (Cell::Integer(i), Cell::Integer(j)) => i <= j,
        (Cell::Integer(_), Cell::Text(_)) => true,
        (Cell::Text(s), Cell::Text(t)) => text_le(s, t),
        _ => false,
    }
}

/// By what rows are ordered.
pub enum Key {
    /// The value of a column.
    Column(Seq<char>),
    /// The point in time that the database reads from the value of a column.
    Datetime(Seq<char>),
}

impl Key {
    /// How the key is written.
    pub open spec fn text(self) -> Seq<char> {
        match self {
            Key::Column(column) => column,
            Key::Datetime(column) => "datetime("@ + column + ")"@,
        }
    }

    /// The key of a row, where `datetime` is how the database reads points in time.
    pub open spec fn of(self, row: Row, datetime: spec_fn(Cell) -> Cell) -> Cell {
        match self {
            Key::Column(column) => cell(row, column),
            Key::Datetime(column) => datetime(cell(row, column)),
        }
    }
}

/// Whether rows stand in ascending order.
pub open spec fn ascending(rows: Seq<Row>, key: Key, datetime: spec_fn(Cell) -> Cell) -> bool {
    forall|i: int, j: int|
        0 <= i < j < rows.len() ==> cell_le(
            key.of(#[trigger] rows[i], datetime),
            key.of(#[trigger] rows[j], datetime),
        )
}

/// Whether rows stand in descending order.
pub open spec fn descending(rows: Seq<Row>, key: Key, datetime: spec_fn(Cell) -> Cell) -> bool {
    forall|i: int, j: int|
        0 <= i < j < rows.len() ==> cell_le(
            key.of(#[trigger] rows[j], datetime),
            key.of(#[trigger] rows[i], datetime),
        )
}

/// The order in which rows are asked for.
pub enum Order {
    /// Any order.
    Any,
    /// Ascending order, not spelled out.
    By(Key),
    Ascending(Key),
    Descending(Key),
}

impl Order {
    /// How the order is written.
    pub open spec fn text(self) -> Seq<char> {
        match self {
            Order::Any => seq![],
            Order::By(key) => " ORDER BY "@ + key.text(),
            Order::Ascending(key) => " ORDER BY "@ + key.text() + " ASC"@,
            Order::Descending(key) => " ORDER BY "@ + key.text() + " DESC"@,
        }
    }

    /// Whether rows stand in this order.
    pub open spec fn holds(self, rows: Seq<Row>, datetime: spec_fn(Cell) -> Cell) -> bool {
        match self {
            Order::Any => true,
            Order::By(key) => ascending(rows, key, datetime),
            Order::Ascending(key) => ascending(rows, key, datetime),
            Order::Descending(key) => descending(rows, key, datetime),
        }
    }
}

/// A SELECT statement.
pub struct Select {
    /// What is read of each row.
    pub columns: Seq<char>,
    pub table: Seq<char>,
    pub conditions: Seq<Term>,
    pub order: Order,
}

impl Select {
    /// The text of the statement.
    pub open spec fn text(self) -> Seq<char> {
        "SELECT "@ + self.columns + " FROM "@ + self.table + where_part(self.conditions)
            + self.order.text()
    }

    /// The statement with its values.
    pub open spec fn statement(self, binds: Seq<ValueView>) -> StatementView {
        StatementView { sql: self.text(), binds }
    }

    /// Whether the statement asks for a row.
    pub open spec fn wants(self, row: Row, binds: Seq<ValueView>) -> bool {
        meets(row, self.conditions, binds, seq![])
    }

    /// Whether `rows` is an answer to the statement: each row of the table that meets the
    /// conditions, as often as the table has it, in order. Rows with the same key may stand in any
    /// order.
    pub open spec fn answers(
        self,
        table: Table,
        binds: Seq<ValueView>,
        datetime: spec_fn(Cell) -> Cell,
        rows: Seq<Row>,
    ) -> bool {
        &&& rows.to_multiset() == table.filter(|row: Row| self.wants(row, binds)).to_multiset()
        &&& self.order.holds(rows, datetime)
    }
}

/// Whether a row has this id.
pub open spec fn has_key(row: Row, id: Seq<char>) -> bool {
    cell(row, "id"@) == Cell::Text(id)
}

/// Whether no row has this id.
pub open spec fn absent(table: Table, id: Seq<char>) -> bool {
    forall|i: int| 0 <= i < table.len() ==> !has_key(#[trigger] table[i], id)
}

/// Whether the row at index `k` is the one with this id.
pub open spec fn only_at(table: Table, k: int, id: Seq<char>) -> bool {
    &&& 0 <= k < table.len()
    &&& forall|i: int| 0 <= i < table.len() ==> (has_key(#[trigger] table[i], id) <==> i == k)
}

/// What storing a row does to a table: a new row is added, a stored one with the same id is
/// changed, and no other row is.
pub proof fn lemma_upsert(
    upsert: Upsert,
    table: Table,
    binds: Seq<ValueView>,
    now: Seq<char>,
    defaults: Row,
    id: Seq<char>,
)
    requires
        upsert.key == "id"@,
        has_key(upsert.insert.offered(binds, now, defaults), id),
    ensures
        ({
            let offered = upsert.insert.offered(binds, now, defaults);
            let after = upsert.after(table, binds, now, defaults);
            &&& absent(table, id) ==> after == table.push(offered)
            &&& !absent(table, id) ==> after.len() == table.len()
            &&& !absent(table, id) ==> forall|i: int|
                0 <= i < table.len() ==> #[trigger] after[i] == if has_key(table[i], id) {
                    upsert.merged(table[i], offered, now)
                } else {
                    table[i]
                }
        }),
{
    if !absent(table, id) {
        let i = choose|i: int| 0 <= i < table.len() && has_key(#[trigger] table[i], id);
        assert(cell(table[i], "id"@) == Cell::Text(id));
    }
}

/// One more part continues a text that is made of parts.
pub proof fn lemma_led(
    text: Seq<char>,
    leads: Seq<Seq<char>>,
    parts: Seq<Seq<char>>,
    n: int,
    lo: int,
    mid: int,
    hi: int,
)
    requires
        0 <= lo <= mid <= hi <= text.len(),
        0 <= n,
        text.subrange(lo, mid) == led_upto(leads, parts, n),
        text.subrange(mid, hi) == leads[n] + parts[n],
    ensures
        text.subrange(lo, hi) == led_upto(leads, parts, n + 1),
{
    assert(text.subrange(lo, hi) =~= text.subrange(lo, mid) + text.subrange(mid, hi));
}

/// Assigned columns have the values that they were assigned, and all others keep theirs.
pub proof fn lemma_assigned(row: Row, columns: Seq<Seq<char>>, values: Seq<Cell>)
    requires
        columns.len() == values.len(),
        columns.no_duplicates(),
    ensures
        forall|k: int|
            0 <= k < columns.len() ==> cell(
                assigned(row, columns, values),
                #[trigger] columns[k],
            ) == values[k],
        forall|c: Seq<char>|
            !columns.contains(c) ==> #[trigger] cell(assigned(row, columns, values), c) == cell(
                row,
                c,
            ),
    decreases columns.len(),
{
    if columns.len() > 0 {
        let front = columns.drop_last();
        lemma_assigned(row, front, values.drop_last());
        assert forall|k: int| 0 <= k < columns.len() implies cell(
            assigned(row, columns, values),
            #[trigger] columns[k],
        ) == values[k] by {
            if k < columns.len() - 1 {
                assert(front[k] == columns[k]);
                assert(columns[k] != columns[columns.len() - 1]);
            }
        }
        assert forall|c: Seq<char>| !columns.contains(c) implies #[trigger] cell(
            assigned(row, columns, values),
            c,
        ) == cell(row, c) by {
            assert(columns[columns.len() - 1] != c);
            assert forall|k: int| 0 <= k < front.len() implies front[k] != c by {
                assert(front[k] == columns[k]);
            }
            assert(!front.contains(c));
            assert(cell(assigned(row, front, values.drop_last()), c) == cell(row, c));
        }
    }
}

/// Leaving rows out leaves each of the others as often as it was there.
pub proof fn lemma_filter_count(rows: Seq<Row>, keep: spec_fn(Row) -> bool, row: Row)
    ensures
        rows.filter(keep).to_multiset().count(row) == if keep(row) {
            rows.to_multiset().count(row)
        } else {
            0
        },
    decreases rows.len(),
{
    broadcast use vstd::seq_lib::group_to_multiset_ensures;

    reveal(Seq::filter);
    if rows.len() > 0 {
        let front = rows.drop_last();
        lemma_filter_count(front, keep, row);
        assert(rows =~= front.push(rows.last()));
    }
}

/// No row is left where none is to be kept.
pub proof fn lemma_filter_none(rows: Seq<Row>, keep: spec_fn(Row) -> bool)
    requires
        forall|i: int| 0 <= i < rows.len() ==> !keep(#[trigger] rows[i]),
    ensures
        rows.filter(keep).len() == 0,
    decreases rows.len(),
{
    reveal(Seq::filter);
    if rows.len() > 0 {
        lemma_filter_none(rows.drop_last(), keep);
    }
}

/// All rows are left where all are to be kept.
pub proof fn lemma_filter_all(rows: Seq<Row>, keep: spec_fn(Row) -> bool)
    requires
        forall|i: int| 0 <= i < rows.len() ==> keep(#[trigger] rows[i]),
    ensures
        rows.filter(keep) == rows,
    decreases rows.len(),
{
    reveal(Seq::filter);
    if rows.len() > 0 {
        let front = rows.drop_last();
        assert forall|i: int| 0 <= i < front.len() implies keep(#[trigger] front[i]) by {
            assert(front[i] == rows[i]);
        }
        lemma_filter_all(front, keep);
        assert(keep(rows[rows.len() - 1]));
        assert(rows =~= front.push(rows.last()));
    } else {
        assert(rows.filter(keep) =~= rows);
    }
}

/// One row is left where one is to be kept.
pub proof fn lemma_filter_one(rows: Seq<Row>, keep: spec_fn(Row) -> bool, k: int)
    requires
        0 <= k < rows.len(),
        forall|i: int| 0 <= i < rows.len() ==> (keep(#[trigger] rows[i]) <==> i == k),
    ensures
        rows.filter(keep) == seq![rows[k]],
    decreases rows.len(),
{
    reveal(Seq::filter);
    let front = rows.drop_last();
    if k == rows.len() - 1 {
        lemma_filter_none(front, keep);
        assert(front.filter(keep) =~= Seq::<Row>::empty());
        assert(rows.filter(keep) =~= seq![rows[k]]);
    } else {
        lemma_filter_one(front, keep, k);
    }
}

/// The rows that a statement asks for are those of the table that meet its conditions.
pub proof fn lemma_answer_rows(
    select: Select,
    table: Table,
    binds: Seq<ValueView>,
    datetime: spec_fn(Cell) -> Cell,
    rows: Seq<Row>,
)
    requires
        select.answers(table, binds, datetime, rows),
    ensures
        forall|row: Row| #[trigger] rows.contains(row) <==> table.contains(row) && select.wants(
            row,
            binds,
        ),
        forall|row: Row| #[trigger]
            rows.to_multiset().count(row) == if select.wants(row, binds) {
                table.to_multiset().count(row)
            } else {
                0
            },
{
    broadcast use vstd::seq_lib::group_to_multiset_ensures;

    let keep = |row: Row| select.wants(row, binds);
    assert forall|row: Row| #[trigger]
        rows.to_multiset().count(row) == if select.wants(row, binds) {
            table.to_multiset().count(row)
        } else {
            0
        } by {
        lemma_filter_count(table, keep, row);
    }
    assert forall|row: Row| #[trigger] rows.contains(row) <==> table.contains(row) && select.wants(
        row,
        binds,
    ) by {
        assert(rows.to_multiset().contains(row) <==> rows.contains(row));
        assert(table.to_multiset().contains(row) <==> table.contains(row));
        assert(rows.to_multiset().count(row) == if select.wants(row, binds) {
            table.to_multiset().count(row)
        } else {
            0
        });
    }
}

/// A statement without conditions asks for all rows.
pub proof fn lemma_answer_all(
    select: Select,
    table: Table,
    binds: Seq<ValueView>,
    datetime: spec_fn(Cell) -> Cell,
    rows: Seq<Row>,
)
    requires
        select.answers(table, binds, datetime, rows),
        select.conditions.len() == 0,
    ensures
        rows.to_multiset() == table.to_multiset(),
{
    lemma_filter_all(table, |row: Row| select.wants(row, binds));
}

/// Where one row of the table meets the conditions, it is the answer.
pub proof fn lemma_answer_one(
    select: Select,
    table: Table,
    binds: Seq<ValueView>,
    datetime: spec_fn(Cell) -> Cell,
    rows: Seq<Row>,
    k: int,
)
    requires
        select.answers(table, binds, datetime, rows),
        0 <= k < table.len(),
        forall|i: int|
            0 <= i < table.len() ==> (select.wants(#[trigger] table[i], binds) <==> i == k),
    ensures
        rows == seq![table[k]],
{
    broadcast use vstd::seq_lib::group_to_multiset_ensures;

    let one = seq![table[k]];
    lemma_filter_one(table, |row: Row| select.wants(row, binds), k);
    assert(rows.len() == rows.to_multiset().len());
    assert(one.len() == one.to_multiset().len());
    assert(rows.contains(rows[0]));
    assert(one.to_multiset().contains(rows[0]));
    assert(one.contains(rows[0]));
    assert(rows =~= one);
}

/// Where no row of the table meets the conditions, the answer is empty.
pub proof fn lemma_answer_none(
    select: Select,
    table: Table,
    binds: Seq<ValueView>,
    datetime: spec_fn(Cell) -> Cell,
    rows: Seq<Row>,
)
    requires
        select.answers(table, binds, datetime, rows),
        forall|i: int| 0 <= i < table.len() ==> !select.wants(#[trigger] table[i], binds),
    ensures
        rows.len() == 0,
{
    lemma_answer_rows(select, table, binds, datetime, rows);
    if rows.len() > 0 {
        assert(rows.contains(rows[0]));
    }
}

} // verus!

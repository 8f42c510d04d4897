//! Parameterised SQL statements as plain values.
//!
//! A statement is its text, in which every parameter is a `?`, and the values bound to those
//! parameters from left to right.
use vstd::prelude::*;

verus! {

/// A value bound to a parameter of a statement.
#[derive(Debug)]
pub enum SqlValue {
    Null,
    Integer(i64),
    Boolean(bool),
    Text(String),
}

/// The mathematical content of a `SqlValue`.
pub enum ValueView {
    Null,
    Integer(i64),
    Boolean(bool),
    Text(Seq<char>),
}

impl View for SqlValue {
    type V = ValueView;

    open spec fn view(&self) -> ValueView {
        match *self {
            SqlValue::Null => ValueView::Null,
            SqlValue::Integer(i) => ValueView::Integer(i),
            SqlValue::Boolean(b) => ValueView::Boolean(b),
            SqlValue::Text(t) => ValueView::Text(t@),
        }
    }
}

/// A statement with its bound values.
#[derive(Debug)]
pub struct Statement {
    pub sql: String,
    pub binds: Vec<SqlValue>,
}

/// The mathematical content of a `Statement`.
#[verifier::ext_equal]
pub struct StatementView {
    pub sql: Seq<char>,
    pub binds: Seq<ValueView>,
}

impl View for Statement {
    type V = StatementView;

    open spec fn view(&self) -> StatementView {
        StatementView { sql: self.sql@, binds: self.binds@.map_values(|v: SqlValue| v@) }
    }
}

/// How often `c` occurs among the first `n` characters of `s`.
pub open spec fn count_upto(s: Seq<char>, c: char, n: int) -> nat
    decreases n,
{
    if n <= 0 {
        0
    } else if s[n - 1] == c {
        count_upto(s, c, n - 1) + 1
    } else {
        count_upto(s, c, n - 1)
    }
}

/// The number of parameters of a statement with the text `s`.
pub open spec fn placeholders(s: Seq<char>) -> nat {
    count_upto(s, '?', s.len() as int)
}

/// The statement with the text `sql` to which nothing is bound yet.
pub open spec fn query(sql: Seq<char>) -> StatementView {
    StatementView { sql, binds: Seq::empty() }
}

/// The value bound for an optional text.
pub open spec fn text_or_null(t: Option<Seq<char>>) -> ValueView {
    match t {
        Some(s) => ValueView::Text(s),
        None => ValueView::Null,
    }
}

/// The value bound for an optional integer.
pub open spec fn integer_or_null(i: Option<i64>) -> ValueView {
    match i {
        Some(n) => ValueView::Integer(n),
        None => ValueView::Null,
    }
}

impl StatementView {
    /// The statement with one more value bound.
    pub open spec fn bind(self, v: ValueView) -> StatementView {
        StatementView { sql: self.sql, binds: self.binds.push(v) }
    }

    /// Every parameter has a value and every value has a parameter.
    pub open spec fn fully_bound(self) -> bool {
        placeholders(self.sql) == self.binds.len()
    }
}

impl Statement {
    /// A statement to which nothing is bound yet.
    pub fn new(sql: &str) -> (r: Statement)
        ensures
            r@ == query(sql@),
    {
        let r = Statement { sql: sql.to_owned(), binds: Vec::new() };
        assert(r@.binds =~= Seq::<ValueView>::empty());
        r
    }

    /// Binds the next value.
    pub fn bind(self, value: SqlValue) -> (r: Statement)
        ensures
            r@ == self@.bind(value@),
    {
        let ghost before = self@;
        let ghost v = value@;
        let mut r = self;
        r.binds.push(value);
        assert(r@.binds =~= before.binds.push(v));
        r
    }

    /// Binds a text.
    pub fn bind_text(self, value: &str) -> (r: Statement)
        ensures
            r@ == self@.bind(ValueView::Text(value@)),
    {
        self.bind(SqlValue::Text(value.to_owned()))
    }

    /// Binds a text, or NULL when there is none.
    pub fn bind_opt_text(self, value: Option<&str>) -> (r: Statement)
        ensures
            r@ == self@.bind(text_or_null(crate::text::opt_str(value))),
    {
        match value {
            Some(t) => self.bind(SqlValue::Text(t.to_owned())),
            None => self.bind(SqlValue::Null),
        }
    }

    /// Binds an integer.
    pub fn bind_integer(self, value: i64) -> (r: Statement)
        ensures
            r@ == self@.bind(ValueView::Integer(value)),
    {
        self.bind(SqlValue::Integer(value))
    }

    /// Binds an integer, or NULL when there is none.
    pub fn bind_opt_integer(self, value: Option<i64>) -> (r: Statement)
        ensures
            r@ == self@.bind(integer_or_null(value)),
    {
        match value {
            Some(i) => self.bind(SqlValue::Integer(i)),
            None => self.bind(SqlValue::Null),
        }
    }

    /// Binds a truth value.
    pub fn bind_bool(self, value: bool) -> (r: Statement)
        ensures
            r@ == self@.bind(ValueView::Boolean(value)),
    {
        self.bind(SqlValue::Boolean(value))
    }
}

/// Occurrences are counted from left to right: those of a prefix depend on the prefix alone.
proof fn lemma_count_prefix(s: Seq<char>, t: Seq<char>, c: char, n: int)
    requires
        n <= s.len(),
        n <= t.len(),
        forall|i: int| 0 <= i < n ==> s[i] == t[i],
    ensures
        count_upto(s, c, n) == count_upto(t, c, n),
    decreases n,
{
    if n > 0 {
        lemma_count_prefix(s, t, c, n - 1);
    }
}

/// Occurrences in the first `a.len() + n` characters of `a + b`.
proof fn lemma_count_concat_upto(a: Seq<char>, b: Seq<char>, c: char, n: int)
    requires
        0 <= n <= b.len(),
    ensures
        count_upto(a + b, c, a.len() + n) == count_upto(a, c, a.len() as int) + count_upto(b, c, n),
    decreases n,
{
    if n > 0 {
        lemma_count_concat_upto(a, b, c, n - 1);
    } else {
        lemma_count_prefix(a + b, a, c, a.len() as int);
    }
}

/// The parameters of a concatenation are those of its parts.
pub proof fn lemma_placeholders_concat(a: Seq<char>, b: Seq<char>)
    ensures
        placeholders(a + b) == placeholders(a) + placeholders(b),
{
    lemma_count_concat_upto(a, b, '?', b.len() as int);
}

/// A bound value is seen as what it is, and a missing one as NULL.
pub proof fn law_bound_values_are_seen_as_they_are(
    i: i64,
    b: bool,
    t: String,
    s: Seq<char>,
)
    ensures
        SqlValue::Null@ == ValueView::Null,
        SqlValue::Integer(i)@ == ValueView::Integer(i),
        SqlValue::Boolean(b)@ == ValueView::Boolean(b),
        SqlValue::Text(t)@ == ValueView::Text(t@),
        text_or_null(Some(s)) == ValueView::Text(s),
        text_or_null(None) == ValueView::Null,
        integer_or_null(Some(i)) == ValueView::Integer(i),
        integer_or_null(None) == ValueView::Null,
{
}

/// A statement is seen as its text and its values, one by one. Binding a value puts it behind the
/// others and leaves the text and the others as they are.
pub proof fn law_statements_are_seen_as_they_are(
    st: Statement,
    i: int,
    sql: Seq<char>,
    view: StatementView,
    value: ValueView,
)
    requires
        0 <= i < st.binds@.len(),
    ensures
        st@.sql == st.sql@,
        st@.binds.len() == st.binds@.len(),
        st@.binds[i] == st.binds@[i]@,
        query(sql).sql == sql,
        query(sql).binds.len() == 0,
        view.bind(value).sql == view.sql,
        view.bind(value).binds == view.binds.push(value),
{
}

/// Each `?` of a text is one parameter, and nothing else is; a statement is fully bound exactly when
/// it has as many values.
pub proof fn law_question_marks_are_parameters(s: Seq<char>, c: char, view: StatementView)
    ensures
        placeholders(Seq::<char>::empty()) == 0,
        placeholders(s.push(c)) == placeholders(s) + if c == '?' { 1nat } else { 0 },
        view.fully_bound() <==> placeholders(view.sql) == view.binds.len(),
{
    lemma_count_prefix(s.push(c), s, '?', s.len() as int);
}

} // verus!

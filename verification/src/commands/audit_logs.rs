//! Looking at the audit log.
use vstd::prelude::*;
use vstd::string::*;

use crate::models::AuditFilter;
use crate::queries::{
    AND, AUDIT_QUERY_HEAD, AUDIT_QUERY_TAIL, COUNT_AUDIT_LOGS, COUNT_FAILED, COUNT_PENDING,
    COUNT_SUCCEEDED, COUNT_UNKNOWN, FROM_CLAUSE, SEARCH_CLAUSE, SERVER_CLAUSE, SESSION_AUDIT_LOGS,
    SESSION_CLAUSE, SOURCE_CLAUSE, SUCCESS_CLAUSE, TO_CLAUSE, WHERE, lemma_and_parameters,
    lemma_audit_query_head_parameters, lemma_audit_query_tail_parameters,
    lemma_count_audit_logs_parameters, lemma_count_failed_parameters,
    lemma_count_pending_parameters, lemma_count_succeeded_parameters,
    lemma_count_unknown_parameters, lemma_from_clause_parameters, lemma_search_clause_parameters,
    lemma_server_clause_parameters, lemma_session_audit_logs_parameters,
    lemma_session_clause_parameters, lemma_source_clause_parameters,
    lemma_success_clause_parameters, lemma_to_clause_parameters, lemma_where_parameters,
};
use crate::sql::{
    lemma_placeholders_concat, placeholders, query, Statement, StatementView, ValueView,
};
use crate::text::{borrow_opt, join, opt_str, opt_text};

verus! {

/// The mathematical content of an `AuditFilter`.
pub struct FilterView {
    pub server_id: Option<i64>,
    pub session_id: Option<Seq<char>>,
    pub source: Option<Seq<char>>,
    pub success: Option<bool>,
    pub search: Option<Seq<char>>,
    pub from: Option<Seq<char>>,
    pub to: Option<Seq<char>>,
    pub limit: i64,
    pub offset: i64,
}

impl View for AuditFilter {
    type V = FilterView;

    open spec fn view(&self) -> FilterView {
        FilterView {
            server_id: self.server_id,
            session_id: opt_text(self.session_id),
            source: opt_text(self.source),
            success: self.success,
            search: opt_text(self.search),
            from: opt_text(self.from),
            to: opt_text(self.to),
            limit: self.limit,
            offset: self.offset,
        }
    }
}

/// A condition of a listing: its text and the values of its parameters.
pub struct Condition {
    pub clause: Seq<char>,
    pub binds: Seq<ValueView>,
}

/// The condition on a text, if the filter has one.
pub open spec fn text_condition(clause: Seq<char>, value: Option<Seq<char>>) -> Seq<Condition> {
    match value {
        Some(t) => seq![Condition { clause, binds: seq![ValueView::Text(t)] }],
        None => seq![],
    }
}

/// The condition on the server, if the filter has one.
pub open spec fn server_condition(value: Option<i64>) -> Seq<Condition> {
    match value {
        Some(i) => seq![Condition { clause: SERVER_CLAUSE@, binds: seq![ValueView::Integer(i)] }],
        None => seq![],
    }
}

/// The condition on success, if the filter has one.
pub open spec fn success_condition(value: Option<bool>) -> Seq<Condition> {
    match value {
        Some(b) => seq![Condition { clause: SUCCESS_CLAUSE@, binds: seq![ValueView::Boolean(b)] }],
        None => seq![],
    }
}

/// The pattern that matches any text that contains `t`.
pub open spec fn like_pattern(t: Seq<char>) -> Seq<char> {
    "%"@ + t + "%"@
}

/// The condition on the text of an entry, if the filter has one. Its pattern is bound three times.
pub open spec fn search_condition(value: Option<Seq<char>>) -> Seq<Condition> {
    match value {
        Some(t) => {
            let p = ValueView::Text(like_pattern(t));
            seq![Condition { clause: SEARCH_CLAUSE@, binds: seq![p, p, p] }]
        },
        None => seq![],
    }
}

/// The conditions of a filter, in the order in which they stand in the listing.
pub open spec fn conditions(f: FilterView) -> Seq<Condition> {
    server_condition(f.server_id) + text_condition(SESSION_CLAUSE@, f.session_id) + text_condition(
        SOURCE_CLAUSE@,
        f.source,
    ) + success_condition(f.success) + search_condition(f.search) + text_condition(
        FROM_CLAUSE@,
        f.from,
    ) + text_condition(TO_CLAUSE@, f.to)
}

/// The texts of some conditions.
pub open spec fn clauses(conds: Seq<Condition>) -> Seq<Seq<char>> {
    conds.map_values(|c: Condition| c.clause)
}

/// The values of the parameters of some conditions, from left to right.
pub open spec fn flat_binds(conds: Seq<Condition>) -> Seq<ValueView>
    decreases conds.len(),
{
    if conds.len() == 0 {
        seq![]
    } else {
        flat_binds(conds.drop_last()) + conds.last().binds
    }
}

/// The part of a listing that holds its conditions. Without conditions it is empty.
pub open spec fn where_text(parts: Seq<Seq<char>>) -> Seq<char> {
    if parts.len() == 0 {
        seq![]
    } else {
        WHERE@ + join(parts, AND@)
    }
}

/// The text of the listing that a filter asks for.
pub open spec fn audit_query_text(f: FilterView) -> Seq<char> {
    AUDIT_QUERY_HEAD@ + where_text(clauses(conditions(f))) + AUDIT_QUERY_TAIL@
}

/// How many entries a page holds: at least 1 and at most 500.
pub open spec fn page_size(limit: i64) -> i64 {
    if limit < 1 {
        1
    } else if limit > 500 {
        500
    } else {
        limit
    }
}

/// How many entries come before a page: at least 0.
pub open spec fn page_start(offset: i64) -> i64 {
    if offset < 0 {
        0
    } else {
        offset
    }
}

/// The listing that a filter asks for.
pub open spec fn audit_query(f: FilterView) -> StatementView {
    StatementView {
        sql: audit_query_text(f),
        binds: flat_binds(conditions(f)).push(ValueView::Integer(page_size(f.limit))).push(
            ValueView::Integer(page_start(f.offset)),
        ),
    }
}

/// Joins texts with a separator between each two of them.
fn join_texts(parts: &Vec<&'static str>, sep: &str) -> (r: String)
    ensures
        r@ == join(parts@.map_values(|p: &'static str| p@), sep@),
{
    let ghost all = parts@.map_values(|p: &'static str| p@);
    let mut r = String::new();
    let mut i: usize = 0;
    while i < parts.len()
        invariant
            i <= parts@.len(),
            all == parts@.map_values(|p: &'static str| p@),
            r@ == join(all.take(i as int), sep@),
        decreases parts@.len() - i,
    {
        assert(all.take(i + 1).drop_last() =~= all.take(i as int));
        if i > 0 {
            r.append(sep);
        }
        r.append(parts[i]);
        assert(r@ =~= join(all.take(i + 1), sep@));
        i += 1;
    }
    assert(all.take(all.len() as int) =~= all);
    r
}

/// The text of a condition, when it applies.
pub open spec fn clause_if(applies: bool, clause: Seq<char>) -> Seq<Seq<char>> {
    if applies {
        seq![clause]
    } else {
        seq![]
    }
}

/// Adds the text of a condition, when it applies.
fn add_clause(parts: &mut Vec<&'static str>, applies: bool, clause: &'static str)
    ensures
        final(parts)@.map_values(|p: &'static str| p@) == old(parts)@.map_values(
            |p: &'static str| p@,
        ) + clause_if(applies, clause@),
{
    if applies {
        parts.push(clause);
    }
    assert(parts@.map_values(|p: &'static str| p@) =~= old(parts)@.map_values(
        |p: &'static str| p@,
    ) + clause_if(applies, clause@));
}

/// The texts of the conditions of a filter.
proof fn lemma_filter_clauses(f: FilterView)
    ensures
        clauses(conditions(f)) == Seq::<Seq<char>>::empty() + clause_if(
            f.server_id is Some,
            SERVER_CLAUSE@,
        ) + clause_if(f.session_id is Some, SESSION_CLAUSE@) + clause_if(
            f.source is Some,
            SOURCE_CLAUSE@,
        ) + clause_if(f.success is Some, SUCCESS_CLAUSE@) + clause_if(
            f.search is Some,
            SEARCH_CLAUSE@,
        ) + clause_if(f.from is Some, FROM_CLAUSE@) + clause_if(f.to is Some, TO_CLAUSE@),
{
    let c1 = server_condition(f.server_id);
    let d2 = text_condition(SESSION_CLAUSE@, f.session_id);
    let d3 = text_condition(SOURCE_CLAUSE@, f.source);
    let d4 = success_condition(f.success);
    let d5 = search_condition(f.search);
    let d6 = text_condition(FROM_CLAUSE@, f.from);
    let d7 = text_condition(TO_CLAUSE@, f.to);
    lemma_clauses_concat(c1, d2);
    lemma_clauses_concat(c1 + d2, d3);
    lemma_clauses_concat(c1 + d2 + d3, d4);
    lemma_clauses_concat(c1 + d2 + d3 + d4, d5);
    lemma_clauses_concat(c1 + d2 + d3 + d4 + d5, d6);
    lemma_clauses_concat(c1 + d2 + d3 + d4 + d5 + d6, d7);
    assert(clauses(c1) =~= Seq::<Seq<char>>::empty() + clause_if(
        f.server_id is Some,
        SERVER_CLAUSE@,
    ));
    assert(clauses(d2) =~= clause_if(f.session_id is Some, SESSION_CLAUSE@));
    assert(clauses(d3) =~= clause_if(f.source is Some, SOURCE_CLAUSE@));
    assert(clauses(d4) =~= clause_if(f.success is Some, SUCCESS_CLAUSE@));
    assert(clauses(d5) =~= clause_if(f.search is Some, SEARCH_CLAUSE@));
    assert(clauses(d6) =~= clause_if(f.from is Some, FROM_CLAUSE@));
    assert(clauses(d7) =~= clause_if(f.to is Some, TO_CLAUSE@));
}

/// The texts of two lists of conditions, one after the other.
proof fn lemma_clauses_concat(a: Seq<Condition>, b: Seq<Condition>)
    ensures
        clauses(a + b) == clauses(a) + clauses(b),
{
    assert(clauses(a + b) =~= clauses(a) + clauses(b));
}

/// The text of the listing that a filter asks for. Its parameters are those of the conditions that
/// the filter has, then the page size and the page start.
pub fn build_audit_query(f: &AuditFilter) -> (r: String)
    ensures
        r@ == audit_query_text(f@),
{
    let mut parts: Vec<&'static str> = Vec::new();
    assert(parts@.map_values(|p: &'static str| p@) =~= Seq::<Seq<char>>::empty());
    add_clause(&mut parts, f.server_id.is_some(), SERVER_CLAUSE);
    add_clause(&mut parts, f.session_id.is_some(), SESSION_CLAUSE);
    add_clause(&mut parts, f.source.is_some(), SOURCE_CLAUSE);
    add_clause(&mut parts, f.success.is_some(), SUCCESS_CLAUSE);
    add_clause(&mut parts, f.search.is_some(), SEARCH_CLAUSE);
    add_clause(&mut parts, f.from.is_some(), FROM_CLAUSE);
    add_clause(&mut parts, f.to.is_some(), TO_CLAUSE);
    let ghost texts = parts@.map_values(|p: &'static str| p@);
    proof {
        lemma_filter_clauses(f@);
    }
    assert(texts == clauses(conditions(f@)));
    let mut sql = AUDIT_QUERY_HEAD.to_owned();
    if parts.len() > 0 {
        sql.append(WHERE);
        sql.append(join_texts(&parts, AND).as_str());
        assert(AUDIT_QUERY_HEAD@ + WHERE@ + join(texts, AND@) =~= AUDIT_QUERY_HEAD@ + where_text(
            texts,
        ));
    } else {
        assert(AUDIT_QUERY_HEAD@ =~= AUDIT_QUERY_HEAD@ + where_text(texts));
    }
    sql.append(AUDIT_QUERY_TAIL);
    sql
}

/// The values of two lists of conditions, one after the other.
proof fn lemma_flat_binds_concat(a: Seq<Condition>, b: Seq<Condition>)
    ensures
        flat_binds(a + b) == flat_binds(a) + flat_binds(b),
    decreases b.len(),
{
    if b.len() == 0 {
        assert(a + b =~= a);
        assert(flat_binds(a) + flat_binds(b) =~= flat_binds(a));
    } else {
        lemma_flat_binds_concat(a, b.drop_last());
        assert((a + b).drop_last() =~= a + b.drop_last());
        assert(flat_binds(a) + (flat_binds(b.drop_last()) + b.last().binds) =~= (flat_binds(a)
            + flat_binds(b.drop_last())) + b.last().binds);
    }
}

/// The values of one condition.
proof fn lemma_flat_binds_single(c: Condition)
    ensures
        flat_binds(seq![c]) == c.binds,
{
    reveal_with_fuel(flat_binds, 2);
    assert(seq![c].drop_last() =~= Seq::<Condition>::empty());
    assert(flat_binds(seq![c]) =~= c.binds);
}

/// The values that a condition on a text binds.
pub open spec fn text_values(value: Option<Seq<char>>) -> Seq<ValueView> {
    match value {
        Some(t) => seq![ValueView::Text(t)],
        None => seq![],
    }
}

/// The values that a condition on the server binds.
pub open spec fn server_values(value: Option<i64>) -> Seq<ValueView> {
    match value {
        Some(i) => seq![ValueView::Integer(i)],
        None => seq![],
    }
}

/// The values that a condition on success binds.
pub open spec fn success_values(value: Option<bool>) -> Seq<ValueView> {
    match value {
        Some(b) => seq![ValueView::Boolean(b)],
        None => seq![],
    }
}

/// The values that a condition on the text of an entry binds.
pub open spec fn search_values(value: Option<Seq<char>>) -> Seq<ValueView> {
    match value {
        Some(t) => {
            let p = ValueView::Text(like_pattern(t));
            seq![p, p, p]
        },
        None => seq![],
    }
}

/// The values that the conditions of a filter bind.
pub open spec fn filter_values(f: FilterView) -> Seq<ValueView> {
    Seq::<ValueView>::empty() + server_values(f.server_id) + text_values(f.session_id)
        + text_values(f.source) + success_values(f.success) + search_values(f.search)
        + text_values(f.from) + text_values(f.to)
}

/// The values of a condition on a text.
proof fn lemma_text_condition_binds(clause: Seq<char>, value: Option<Seq<char>>)
    ensures
        flat_binds(text_condition(clause, value)) == text_values(value),
{
    if let Some(t) = value {
        lemma_flat_binds_single(Condition { clause, binds: seq![ValueView::Text(t)] });
    }
}

/// The values bound for a filter are those of its conditions, in their order.
proof fn lemma_filter_binds(f: FilterView)
    ensures
        flat_binds(conditions(f)) == filter_values(f),
{
    let c1 = server_condition(f.server_id);
    let d2 = text_condition(SESSION_CLAUSE@, f.session_id);
    let d3 = text_condition(SOURCE_CLAUSE@, f.source);
    let d4 = success_condition(f.success);
    let d5 = search_condition(f.search);
    let d6 = text_condition(FROM_CLAUSE@, f.from);
    let d7 = text_condition(TO_CLAUSE@, f.to);
    lemma_flat_binds_concat(c1, d2);
    lemma_flat_binds_concat(c1 + d2, d3);
    lemma_flat_binds_concat(c1 + d2 + d3, d4);
    lemma_flat_binds_concat(c1 + d2 + d3 + d4, d5);
    lemma_flat_binds_concat(c1 + d2 + d3 + d4 + d5, d6);
    lemma_flat_binds_concat(c1 + d2 + d3 + d4 + d5 + d6, d7);
    lemma_text_condition_binds(SESSION_CLAUSE@, f.session_id);
    lemma_text_condition_binds(SOURCE_CLAUSE@, f.source);
    lemma_text_condition_binds(FROM_CLAUSE@, f.from);
    lemma_text_condition_binds(TO_CLAUSE@, f.to);
    if let Some(i) = f.server_id {
        lemma_flat_binds_single(
            Condition { clause: SERVER_CLAUSE@, binds: seq![ValueView::Integer(i)] },
        );
    }
    if let Some(b) = f.success {
        lemma_flat_binds_single(
            Condition { clause: SUCCESS_CLAUSE@, binds: seq![ValueView::Boolean(b)] },
        );
    }
    if let Some(t) = f.search {
        let p = ValueView::Text(like_pattern(t));
        lemma_flat_binds_single(Condition { clause: SEARCH_CLAUSE@, binds: seq![p, p, p] });
    }
    assert(flat_binds(c1) =~= Seq::<ValueView>::empty() + server_values(f.server_id));
    assert(flat_binds(d4) == success_values(f.success));
    assert(flat_binds(d5) == search_values(f.search));
}

/// Binds the value of a condition on a text, when there is one.
fn bind_text_if(st: Statement, value: Option<&str>) -> (r: Statement)
    ensures
        r@.sql == st@.sql,
        r@.binds == st@.binds + text_values(opt_str(value)),
{
    match value {
        Some(t) => {
            let r = st.bind_text(t);
            assert(r@.binds =~= st@.binds + text_values(Some(t@)));
            r
        },
        None => {
            assert(st@.binds =~= st@.binds + text_values(None));
            st
        },
    }
}

/// Binds the value of a condition on the server, when there is one.
fn bind_server_if(st: Statement, value: Option<i64>) -> (r: Statement)
    ensures
        r@.sql == st@.sql,
        r@.binds == st@.binds + server_values(value),
{
    match value {
        Some(i) => {
            let r = st.bind_integer(i);
            assert(r@.binds =~= st@.binds + server_values(value));
            r
        },
        None => {
            assert(st@.binds =~= st@.binds + server_values(value));
            st
        },
    }
}

/// Binds the value of a condition on success, when there is one.
fn bind_success_if(st: Statement, value: Option<bool>) -> (r: Statement)
    ensures
        r@.sql == st@.sql,
        r@.binds == st@.binds + success_values(value),
{
    match value {
        Some(b) => {
            let r = st.bind_bool(b);
            assert(r@.binds =~= st@.binds + success_values(value));
            r
        },
        None => {
            assert(st@.binds =~= st@.binds + success_values(value));
            st
        },
    }
}

/// Binds the pattern of a condition on the text of an entry, when there is one: once for each of
/// the three columns that are searched.
fn bind_search_if(st: Statement, value: Option<&str>) -> (r: Statement)
    ensures
        r@.sql == st@.sql,
        r@.binds == st@.binds + search_values(opt_str(value)),
{
    match value {
        Some(t) => {
            let mut like = "%".to_owned();
            like.append(t);
            like.append("%");
            let r = st.bind_text(like.as_str()).bind_text(like.as_str()).bind_text(like.as_str());
            assert(r@.binds =~= st@.binds + search_values(Some(t@)));
            r
        },
        None => {
            assert(st@.binds =~= st@.binds + search_values(None));
            st
        },
    }
}

/// The listing of the audit log that a filter asks for, newest entries first.
pub fn query_audit_logs(filter: &AuditFilter) -> (r: Statement)
    ensures
        r@ == audit_query(filter@),
        r@.fully_bound(),
{
    let sql = build_audit_query(filter);
    let st = Statement::new(sql.as_str());
    let st = bind_server_if(st, filter.server_id);
    let st = bind_text_if(st, borrow_opt(&filter.session_id));
    let st = bind_text_if(st, borrow_opt(&filter.source));
    let st = bind_success_if(st, filter.success);
    let st = bind_search_if(st, borrow_opt(&filter.search));
    let st = bind_text_if(st, borrow_opt(&filter.from));
    let st = bind_text_if(st, borrow_opt(&filter.to));
    proof {
        lemma_filter_binds(filter@);
        law_audit_query_is_fully_bound(filter@);
    }
    let limit: i64 = if filter.limit < 1 {
        1
    } else if filter.limit > 500 {
        500
    } else {
        filter.limit
    };
    let offset: i64 = if filter.offset < 0 {
        0
    } else {
        filter.offset
    };
    st.bind_integer(limit).bind_integer(offset)
}

/// Every condition has as many values as its text has parameters.
pub open spec fn balanced(conds: Seq<Condition>) -> bool {
    forall|i: int|
        0 <= i < conds.len() ==> placeholders((#[trigger] conds[i]).clause) == conds[i].binds.len()
}

/// Each condition of a filter is balanced.
proof fn lemma_conditions_balanced(f: FilterView)
    ensures
        balanced(conditions(f)),
{
    lemma_server_clause_parameters();
    lemma_session_clause_parameters();
    lemma_source_clause_parameters();
    lemma_success_clause_parameters();
    lemma_search_clause_parameters();
    lemma_from_clause_parameters();
    lemma_to_clause_parameters();
    let c1 = server_condition(f.server_id);
    let c2 = c1 + text_condition(SESSION_CLAUSE@, f.session_id);
    let c3 = c2 + text_condition(SOURCE_CLAUSE@, f.source);
    let c4 = c3 + success_condition(f.success);
    let c5 = c4 + search_condition(f.search);
    let c6 = c5 + text_condition(FROM_CLAUSE@, f.from);
    assert(balanced(c1));
    assert(balanced(c2));
    assert(balanced(c3));
    assert(balanced(c4));
    assert(balanced(c5));
    assert(balanced(c6));
}

/// Joined conditions have as many parameters as values.
proof fn lemma_join_parameters(conds: Seq<Condition>)
    requires
        balanced(conds),
    ensures
        placeholders(join(clauses(conds), AND@)) == flat_binds(conds).len(),
    decreases conds.len(),
{
    let parts = clauses(conds);
    if conds.len() == 1 {
        assert(conds =~= seq![conds[0]]);
        lemma_flat_binds_single(conds[0]);
    } else if conds.len() > 1 {
        let front = conds.drop_last();
        assert(clauses(front) =~= parts.drop_last());
        assert forall|i: int| 0 <= i < front.len() implies placeholders((#[trigger] front[i]).clause)
            == front[i].binds.len() by {
            assert(front[i] == conds[i]);
        }
        lemma_join_parameters(front);
        lemma_and_parameters();
        lemma_placeholders_concat(join(parts.drop_last(), AND@), AND@);
        lemma_placeholders_concat(join(parts.drop_last(), AND@) + AND@, parts.last());
        assert(conds[conds.len() - 1] == conds.last());
    }
}

/// Every parameter of a listing gets exactly one value.
pub proof fn law_audit_query_is_fully_bound(f: FilterView)
    ensures
        audit_query(f).fully_bound(),
{
    let conds = conditions(f);
    let parts = clauses(conds);
    lemma_conditions_balanced(f);
    lemma_join_parameters(conds);
    lemma_where_parameters();
    lemma_audit_query_head_parameters();
    lemma_audit_query_tail_parameters();
    lemma_placeholders_concat(WHERE@, join(parts, AND@));
    lemma_placeholders_concat(AUDIT_QUERY_HEAD@, where_text(parts));
    lemma_placeholders_concat(AUDIT_QUERY_HEAD@ + where_text(parts), AUDIT_QUERY_TAIL@);
}

/// A page holds between 1 and 500 entries and starts at 0 or later, whatever was asked for. A page
/// size and a start within those bounds are left as they are.
pub proof fn law_pages_are_bounded(limit: i64, offset: i64)
    ensures
        1 <= page_size(limit) <= 500,
        page_start(offset) >= 0,
        1 <= limit <= 500 ==> page_size(limit) == limit,
        offset >= 0 ==> page_start(offset) == offset,
{
}

/// The values of a listing stand in the order of its parameters: up to the end of any condition,
/// the text has exactly as many parameters as values have been bound for the conditions so far.
#[verifier::rlimit(40)]
pub proof fn law_audit_values_follow_parameters(f: FilterView, n: int)
    requires
        1 <= n <= conditions(f).len(),
    ensures
        ({
            let first = conditions(f).take(n);
            let text = AUDIT_QUERY_HEAD@ + WHERE@ + join(clauses(first), AND@);
            &&& text.is_prefix_of(audit_query(f).sql)
            &&& flat_binds(first).is_prefix_of(audit_query(f).binds)
            &&& placeholders(text) == flat_binds(first).len()
        }),
{
    let conds = conditions(f);
    let first = conds.take(n);
    lemma_conditions_balanced(f);
    assert forall|i: int| 0 <= i < first.len() implies placeholders((#[trigger] first[i]).clause)
        == first[i].binds.len() by {
        assert(first[i] == conds[i]);
    }
    lemma_join_parameters(first);
    lemma_where_parameters();
    lemma_audit_query_head_parameters();
    lemma_placeholders_concat(AUDIT_QUERY_HEAD@, WHERE@);
    lemma_placeholders_concat(AUDIT_QUERY_HEAD@ + WHERE@, join(clauses(first), AND@));
    lemma_join_prefix(clauses(conds), AND@, n);
    assert(clauses(first) =~= clauses(conds).take(n));
    assert(conds =~= first + conds.skip(n));
    lemma_flat_binds_concat(first, conds.skip(n));
    lemma_frame_keeps_prefix(
        AUDIT_QUERY_HEAD@,
        WHERE@,
        join(clauses(first), AND@),
        join(clauses(conds), AND@),
        AUDIT_QUERY_TAIL@,
    );
    let bound = flat_binds(first);
    assert(bound =~= audit_query(f).binds.subrange(0, bound.len() as int));
}

/// The start of a part is the start of what the part stands in.
proof fn lemma_frame_keeps_prefix(
    head: Seq<char>,
    word: Seq<char>,
    part: Seq<char>,
    whole: Seq<char>,
    tail: Seq<char>,
)
    requires
        part.is_prefix_of(whole),
    ensures
        (head + word + part).is_prefix_of(head + (word + whole) + tail),
{
    let text = head + word + part;
    assert(part =~= whole.subrange(0, part.len() as int));
    assert(text =~= (head + (word + whole) + tail).subrange(0, text.len() as int));
}

/// Joining the first of some texts gives the start of what joining all of them gives.
proof fn lemma_join_prefix(parts: Seq<Seq<char>>, sep: Seq<char>, n: int)
    requires
        1 <= n <= parts.len(),
    ensures
        join(parts.take(n), sep).is_prefix_of(join(parts, sep)),
    decreases parts.len(),
{
    if n == parts.len() {
        assert(parts.take(n) =~= parts);
    } else {
        lemma_join_prefix(parts.drop_last(), sep, n);
        assert(parts.drop_last().take(n) =~= parts.take(n));
        let a = join(parts.take(n), sep);
        let b = join(parts.drop_last(), sep);
        assert(a =~= b.subrange(0, a.len() as int));
        assert(a =~= (b + sep + parts.last()).subrange(0, a.len() as int));
    }
}

/// The entries of one session, oldest first.
pub fn get_session_audit_logs(session_id: &str) -> (r: Statement)
    ensures
        r@ == query(SESSION_AUDIT_LOGS@).bind(ValueView::Text(session_id@)),
        r@.fully_bound(),
{
    proof {
        lemma_session_audit_logs_parameters();
    }
    Statement::new(SESSION_AUDIT_LOGS).bind_text(session_id)
}

/// How many entries of the audit log there are, in all and by outcome.
#[derive(Debug)]
pub struct AuditStats {
    pub total: i64,
    pub success: i64,
    pub failed: i64,
    pub unknown: i64,
    pub pending: i64,
}

/// The statements that count the entries of the audit log.
#[derive(Debug)]
pub struct AuditCounts {
    pub total: Statement,
    pub success: Statement,
    pub failed: Statement,
    pub unknown: Statement,
    pub pending: Statement,
}

/// The statements that count the entries of the audit log.
pub fn audit_counts() -> (r: AuditCounts)
    ensures
        r.total@ == query(COUNT_AUDIT_LOGS@),
        r.success@ == query(COUNT_SUCCEEDED@),
        r.failed@ == query(COUNT_FAILED@),
        r.unknown@ == query(COUNT_UNKNOWN@),
        r.pending@ == query(COUNT_PENDING@),
        r.total@.fully_bound(),
        r.success@.fully_bound(),
        r.failed@.fully_bound(),
        r.unknown@.fully_bound(),
        r.pending@.fully_bound(),
{
    proof {
        lemma_count_audit_logs_parameters();
        lemma_count_succeeded_parameters();
        lemma_count_failed_parameters();
        lemma_count_unknown_parameters();
        lemma_count_pending_parameters();
    }
    AuditCounts {
        total: Statement::new(COUNT_AUDIT_LOGS),
        success: Statement::new(COUNT_SUCCEEDED),
        failed: Statement::new(COUNT_FAILED),
        unknown: Statement::new(COUNT_UNKNOWN),
        pending: Statement::new(COUNT_PENDING),
    }
}

/// A count, or 0 when it could not be read.
pub open spec fn count_or_zero(count: Option<i64>) -> i64 {
    match count {
        Some(n) => n,
        None => 0,
    }
}

/// The statistics of the audit log, from the counts that were read. A count that could not be read
/// is reported as 0.
pub fn audit_stats(
    total: Option<i64>,
    success: Option<i64>,
    failed: Option<i64>,
    unknown: Option<i64>,
    pending: Option<i64>,
) -> (r: AuditStats)
    ensures
        r.total == count_or_zero(total),
        r.success == count_or_zero(success),
        r.failed == count_or_zero(failed),
        r.unknown == count_or_zero(unknown),
        r.pending == count_or_zero(pending),
        total matches Some(n) ==> r.total == n,
        success matches Some(n) ==> r.success == n,
        failed matches Some(n) ==> r.failed == n,
        unknown matches Some(n) ==> r.unknown == n,
        pending matches Some(n) ==> r.pending == n,
        total is None ==> r.total == 0,
        success is None ==> r.success == 0,
        failed is None ==> r.failed == 0,
        unknown is None ==> r.unknown == 0,
        pending is None ==> r.pending == 0,
{
    AuditStats {
        total: total.unwrap_or(0),
        success: success.unwrap_or(0),
        failed: failed.unwrap_or(0),
        unknown: unknown.unwrap_or(0),
        pending: pending.unwrap_or(0),
    }
}

/// A page size below 1 counts as 1 and one above 500 as 500; a start before the first entry counts
/// as the first. Everything between is taken as it is.
pub proof fn law_pages_are_clamped(limit: i64, offset: i64)
    ensures
        limit < 1 ==> page_size(limit) == 1,
        1 <= limit <= 500 ==> page_size(limit) == limit,
        limit > 500 ==> page_size(limit) == 500,
        offset < 0 ==> page_start(offset) == 0,
        offset >= 0 ==> page_start(offset) == offset,
{
}

/// A search looks for the text as it was given, with anything before and after it.
pub proof fn law_search_pattern_surrounds_the_text(t: Seq<char>)
    ensures
        like_pattern(t).len() == t.len() + 2,
        like_pattern(t)[0] == '%',
        like_pattern(t).last() == '%',
        like_pattern(t).subrange(1, t.len() as int + 1) == t,
{
    reveal_strlit("%");
    assert(like_pattern(t).subrange(1, t.len() as int + 1) =~= t);
}

/// A filter is seen as what it holds, field by field.
pub proof fn law_filters_are_seen_as_they_are(f: AuditFilter)
    ensures
        f@.server_id == f.server_id,
        f@.success == f.success,
        f@.limit == f.limit,
        f@.offset == f.offset,
        f@.session_id is Some <==> f.session_id is Some,
        f.session_id matches Some(t) ==> f@.session_id == Some(t@),
        f@.source is Some <==> f.source is Some,
        f.source matches Some(t) ==> f@.source == Some(t@),
        f@.search is Some <==> f.search is Some,
        f.search matches Some(t) ==> f@.search == Some(t@),
        f@.from is Some <==> f.from is Some,
        f.from matches Some(t) ==> f@.from == Some(t@),
        f@.to is Some <==> f.to is Some,
        f.to matches Some(t) ==> f@.to == Some(t@),
{
}

/// What a filter is turned into: one condition for each field that is given and none for the
/// others, and for each of them its values, in the same order; behind these the size and the start
/// of the page.
pub proof fn law_each_given_field_is_one_condition(f: FilterView)
    ensures
        ({
            let none = Seq::<Seq<char>>::empty();
            let parts = none + (if f.server_id is Some {
                seq!["server_id = ?"@]
            } else {
                none
            }) + (if f.session_id is Some {
                seq!["session_id = ?"@]
            } else {
                none
            }) + (if f.source is Some {
                seq!["source = ?"@]
            } else {
                none
            }) + (if f.success is Some {
                seq!["success = ?"@]
            } else {
                none
            }) + (if f.search is Some {
                seq!["(command LIKE ? OR tool_name LIKE ? OR output LIKE ?)"@]
            } else {
                none
            }) + (if f.from is Some {
                seq!["timestamp >= ?"@]
            } else {
                none
            }) + (if f.to is Some {
                seq!["timestamp <= ?"@]
            } else {
                none
            });
            &&& parts.len() == 0 ==> audit_query(f).sql == "SELECT * FROM audit_logs "@
                + " ORDER BY timestamp DESC LIMIT ? OFFSET ?"@
            &&& parts.len() > 0 ==> audit_query(f).sql == "SELECT * FROM audit_logs "@ + ("WHERE "@
                + join(parts, " AND "@)) + " ORDER BY timestamp DESC LIMIT ? OFFSET ?"@
        }),
        ({
            let none = Seq::<ValueView>::empty();
            let values = none + (if f.server_id is Some {
                seq![ValueView::Integer(f.server_id->0)]
            } else {
                none
            }) + (if f.session_id is Some {
                seq![ValueView::Text(f.session_id->0)]
            } else {
                none
            }) + (if f.source is Some {
                seq![ValueView::Text(f.source->0)]
            } else {
                none
            }) + (if f.success is Some {
                seq![ValueView::Boolean(f.success->0)]
            } else {
                none
            }) + (if f.search is Some {
                let p = ValueView::Text("%"@ + f.search->0 + "%"@);
                seq![p, p, p]
            } else {
                none
            }) + (if f.from is Some {
                seq![ValueView::Text(f.from->0)]
            } else {
                none
            }) + (if f.to is Some {
                seq![ValueView::Text(f.to->0)]
            } else {
                none
            });
            audit_query(f).binds == values.push(ValueView::Integer(page_size(f.limit))).push(
                ValueView::Integer(page_start(f.offset)),
            )
        }),
{
    lemma_filter_clauses(f);
    lemma_filter_binds(f);
    assert(AUDIT_QUERY_HEAD@ + Seq::<char>::empty() =~= AUDIT_QUERY_HEAD@);
}

} // verus!

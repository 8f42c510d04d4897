//! The audit log: what is recorded of an operation, and when.
//!
//! An operation that changes a server is registered as pending before it starts and completed, once,
//! when it is over. An operation that does not is recorded in one go.
use vstd::prelude::*;
use vstd::string::*;
use vstd::utf8::*;

use crate::clip::{byte_len, clip, clip_str, law_clip_is_longest_fitting_prefix};
use crate::clock::{is_utc_timestamp, utc_now};
use crate::decimal::{decimal, signed_decimal, write_i64, write_u64};
use crate::error::{AppError, AppResult, ErrorView};
use crate::queries::{
    FINISH_AUDIT_LOG, INSERT_AUDIT_LOG, lemma_finish_audit_log_parameters,
    lemma_insert_audit_log_parameters,
};
use crate::sql::{integer_or_null, query, text_or_null, Statement, StatementView, ValueView};
use crate::text::{borrow_opt, first_of, opt_str, opt_text, same_text};

verus! {

/// Who runs what on whose behalf: what the audit log records besides the command itself.
#[derive(Debug, Clone)]
pub struct AuditContext {
    /// Where the operation comes from: agent, manual_terminal, quick_action or mcp_external.
    pub source: String,
    /// The session that the operation belongs to.
    pub session_id: Option<String>,
    /// The tool: run_command, read_file, write_file and so on.
    pub tool_name: String,
    /// The command as it is to be recorded.
    pub command: Option<String>,
    /// The arguments, as JSON.
    pub args: Option<String>,
    /// The person or the policy that approved it.
    pub approved_by: Option<String>,
    /// The proposal that it carries out.
    pub proposal_id: Option<String>,
}

/// The mathematical content of an `AuditContext`.
pub struct ContextView {
    pub source: Seq<char>,
    pub session_id: Option<Seq<char>>,
    pub tool_name: Seq<char>,
    pub command: Option<Seq<char>>,
    pub args: Option<Seq<char>>,
    pub approved_by: Option<Seq<char>>,
    pub proposal_id: Option<Seq<char>>,
}

impl View for AuditContext {
    type V = ContextView;

    open spec fn view(&self) -> ContextView {
        ContextView {
            source: self.source@,
            session_id: opt_text(self.session_id),
            tool_name: self.tool_name@,
            command: opt_text(self.command),
            args: opt_text(self.args),
            approved_by: opt_text(self.approved_by),
            proposal_id: opt_text(self.proposal_id),
        }
    }
}

/// An entry of the audit log, as it is stored.
#[derive(Debug, Clone)]
pub struct AuditLog {
    pub id: i64,
    pub timestamp: String,
    pub session_id: Option<String>,
    pub server_id: Option<i64>,
    pub server_host: Option<String>,
    pub source: String,
    pub tool_name: String,
    pub command: Option<String>,
    pub args: Option<String>,
    pub exit_code: Option<i32>,
    pub output: Option<String>,
    pub success: bool,
    /// pending, succeeded, failed or unknown.
    pub outcome: String,
    pub approved_by: Option<String>,
    pub proposal_id: Option<String>,
    pub duration_ms: Option<i64>,
}

/// How many bytes of a command's output the audit log keeps.
pub const OUTPUT_TRUNCATE: usize = 2000;

/// What the audit log keeps of an output: all of it when it takes at most `OUTPUT_TRUNCATE` bytes,
/// otherwise its longest prefix that does, and a note with the number of its characters.
pub open spec fn truncated(s: Seq<char>) -> Seq<char> {
    if byte_len(s) <= OUTPUT_TRUNCATE {
        s
    } else {
        clip(s, OUTPUT_TRUNCATE as nat) + "\n...(输出已截断,共 "@ + decimal(s.len()) + " 字符)"@
    }
}

/// What the audit log keeps of an optional output.
pub open spec fn opt_truncated(s: Option<Seq<char>>) -> Option<Seq<char>> {
    match s {
        Some(t) => Some(truncated(t)),
        None => None,
    }
}

/// Cuts an output down to what the audit log keeps of it.
pub fn truncate_output(s: &str) -> (r: String)
    ensures
        r@ == truncated(s@),
{
    if s.as_bytes().len() <= OUTPUT_TRUNCATE {
        s.to_owned()
    } else {
        let mut r = clip_str(s, OUTPUT_TRUNCATE).to_owned();
        r.append("\n...(输出已截断,共 ");
        r.append(write_u64(s.unicode_len() as u64).as_str());
        r.append(" 字符)");
        r
    }
}

/// Cuts an optional output down to what the audit log keeps of it.
fn truncate_opt(s: Option<&str>) -> (r: Option<String>)
    ensures
        opt_text(r) == opt_truncated(opt_str(s)),
{
    match s {
        Some(t) => Some(truncate_output(t)),
        None => None,
    }
}

/// The columns of a new audit log entry.
pub struct EntryView {
    pub timestamp: Seq<char>,
    pub session_id: Option<Seq<char>>,
    pub server_id: Option<i64>,
    pub server_host: Option<Seq<char>>,
    pub source: Seq<char>,
    pub tool_name: Seq<char>,
    pub command: Option<Seq<char>>,
    pub args: Option<Seq<char>>,
    pub exit_code: Option<i64>,
    pub output: Option<Seq<char>>,
    pub success: bool,
    pub outcome: Seq<char>,
    pub approved_by: Option<Seq<char>>,
    pub proposal_id: Option<Seq<char>>,
    pub duration_ms: i64,
}

/// An exit code as a column value.
pub open spec fn exit_column(exit_code: Option<i32>) -> Option<i64> {
    match exit_code {
        Some(c) => Some(c as i64),
        None => None,
    }
}

/// The statement that stores an entry: the values stand in the order of the columns.
pub open spec fn insert_statement(e: EntryView) -> StatementView {
    query(INSERT_AUDIT_LOG@)
        .bind(ValueView::Text(e.timestamp))
        .bind(text_or_null(e.session_id))
        .bind(integer_or_null(e.server_id))
        .bind(text_or_null(e.server_host))
        .bind(ValueView::Text(e.source))
        .bind(ValueView::Text(e.tool_name))
        .bind(text_or_null(e.command))
        .bind(text_or_null(e.args))
        .bind(integer_or_null(e.exit_code))
        .bind(text_or_null(e.output))
        .bind(ValueView::Boolean(e.success))
        .bind(ValueView::Text(e.outcome))
        .bind(text_or_null(e.approved_by))
        .bind(text_or_null(e.proposal_id))
        .bind(ValueView::Integer(e.duration_ms))
}

/// The entry that registers an operation before it starts.
pub open spec fn pending_entry(
    timestamp: Seq<char>,
    server_id: Option<i64>,
    server_host: Option<Seq<char>>,
    command: Option<Seq<char>>,
    ctx: ContextView,
) -> EntryView {
    EntryView {
        timestamp,
        session_id: ctx.session_id,
        server_id,
        server_host,
        source: ctx.source,
        tool_name: ctx.tool_name,
        command: first_of(command, ctx.command),
        args: ctx.args,
        exit_code: None,
        output: None,
        success: false,
        outcome: "pending"@,
        approved_by: ctx.approved_by,
        proposal_id: ctx.proposal_id,
        duration_ms: 0,
    }
}

/// The entry for an operation that is already over and ran no command on a server.
pub open spec fn logged_entry(
    timestamp: Seq<char>,
    server_id: Option<i64>,
    server_host: Option<Seq<char>>,
    success: bool,
    output: Option<Seq<char>>,
    ctx: ContextView,
) -> EntryView {
    EntryView {
        timestamp,
        session_id: ctx.session_id,
        server_id,
        server_host,
        source: ctx.source,
        tool_name: ctx.tool_name,
        command: ctx.command,
        args: ctx.args,
        exit_code: None,
        output: opt_truncated(output),
        success,
        outcome: if success { "succeeded"@ } else { "failed"@ },
        approved_by: ctx.approved_by,
        proposal_id: ctx.proposal_id,
        duration_ms: 0,
    }
}

/// The statement that completes the entry `audit_id`.
pub open spec fn finish_statement(
    audit_id: i64,
    outcome: Seq<char>,
    exit_code: Option<i32>,
    output: Option<Seq<char>>,
    success: bool,
    duration_ms: i64,
) -> StatementView {
    query(FINISH_AUDIT_LOG@)
        .bind(ValueView::Text(outcome))
        .bind(integer_or_null(exit_column(exit_code)))
        .bind(text_or_null(opt_truncated(output)))
        .bind(ValueView::Boolean(success))
        .bind(ValueView::Integer(duration_ms))
        .bind(ValueView::Integer(audit_id))
}

/// The outcomes that an entry can be completed with.
pub open spec fn is_final_outcome(outcome: Seq<char>) -> bool {
    outcome == "succeeded"@ || outcome == "failed"@ || outcome == "unknown"@
}

/// The statement that stores an audit log entry.
#[allow(clippy::too_many_arguments)]
pub fn write_audit_log(
    timestamp: &str,
    session_id: Option<&str>,
    server_id: Option<i64>,
    server_host: Option<&str>,
    source: &str,
    tool_name: &str,
    command: Option<&str>,
    args: Option<&str>,
    exit_code: Option<i32>,
    output: Option<&str>,
    success: bool,
    outcome: &str,
    approved_by: Option<&str>,
    proposal_id: Option<&str>,
    duration_ms: i64,
) -> (r: Statement)
    ensures
        r@ == insert_statement(
            (EntryView {
                timestamp: timestamp@,
                session_id: opt_str(session_id),
                server_id,
                server_host: opt_str(server_host),
                source: source@,
                tool_name: tool_name@,
                command: opt_str(command),
                args: opt_str(args),
                exit_code: exit_column(exit_code),
                output: opt_str(output),
                success,
                outcome: outcome@,
                approved_by: opt_str(approved_by),
                proposal_id: opt_str(proposal_id),
                duration_ms,
            }),
        ),
        r@.fully_bound(),
{
    proof {
        lemma_insert_audit_log_parameters();
    }
    Statement::new(INSERT_AUDIT_LOG)
        .bind_text(timestamp)
        .bind_opt_text(session_id)
        .bind_opt_integer(server_id)
        .bind_opt_text(server_host)
        .bind_text(source)
        .bind_text(tool_name)
        .bind_opt_text(command)
        .bind_opt_text(args)
        .bind_opt_integer(widen(exit_code))
        .bind_opt_text(output)
        .bind_bool(success)
        .bind_text(outcome)
        .bind_opt_text(approved_by)
        .bind_opt_text(proposal_id)
        .bind_integer(duration_ms)
}

/// An exit code as a column value.
fn widen(exit_code: Option<i32>) -> (r: Option<i64>)
    ensures
        r == exit_column(exit_code),
{
    match exit_code {
        Some(c) => Some(c as i64),
        None => None,
    }
}

/// Registers, at the given time, an operation that is about to start.
pub fn begin_audit_action_at(
    timestamp: &str,
    server_id: Option<i64>,
    server_host: Option<&str>,
    command: Option<&str>,
    ctx: &AuditContext,
) -> (r: Statement)
    ensures
        r@ == insert_statement(
            pending_entry(timestamp@, server_id, opt_str(server_host), opt_str(command), ctx@),
        ),
        r@.fully_bound(),
{
    let recorded = match command {
        Some(c) => Some(c),
        None => borrow_opt(&ctx.command),
    };
    write_audit_log(
        timestamp,
        borrow_opt(&ctx.session_id),
        server_id,
        server_host,
        ctx.source.as_str(),
        ctx.tool_name.as_str(),
        recorded,
        borrow_opt(&ctx.args),
        None,
        None,
        false,
        "pending",
        borrow_opt(&ctx.approved_by),
        borrow_opt(&ctx.proposal_id),
        0,
    )
}

/// Registers an operation that is about to start. Unless the statement succeeds, the operation
/// must not be carried out.
pub fn begin_audit_action(
    server_id: Option<i64>,
    server_host: Option<&str>,
    command: Option<&str>,
    ctx: &AuditContext,
) -> (r: Statement)
    ensures
        exists|now: Seq<char>|
            is_utc_timestamp(now) && r@ == #[trigger] insert_statement(
                pending_entry(now, server_id, opt_str(server_host), opt_str(command), ctx@),
            ),
        r@.fully_bound(),
{
    let now = utc_now();
    begin_audit_action_at(now.as_str(), server_id, server_host, command, ctx)
}

/// Records, at the given time, an operation that ran no command on a server.
pub fn log_action_at(
    timestamp: &str,
    server_id: Option<i64>,
    server_host: Option<&str>,
    success: bool,
    output: Option<&str>,
    ctx: &AuditContext,
) -> (r: Statement)
    ensures
        r@ == insert_statement(
            logged_entry(timestamp@, server_id, opt_str(server_host), success, opt_str(output), ctx@),
        ),
        r@.fully_bound(),
{
    let kept = truncate_opt(output);
    write_audit_log(
        timestamp,
        borrow_opt(&ctx.session_id),
        server_id,
        server_host,
        ctx.source.as_str(),
        ctx.tool_name.as_str(),
        borrow_opt(&ctx.command),
        borrow_opt(&ctx.args),
        None,
        borrow_opt(&kept),
        success,
        if success {
            "succeeded"
        } else {
            "failed"
        },
        borrow_opt(&ctx.approved_by),
        borrow_opt(&ctx.proposal_id),
        0,
    )
}

/// Records an operation that ran no command on a server.
pub fn log_action(
    server_id: Option<i64>,
    server_host: Option<&str>,
    success: bool,
    output: Option<&str>,
    ctx: &AuditContext,
) -> (r: Statement)
    ensures
        exists|now: Seq<char>|
            is_utc_timestamp(now) && r@ == #[trigger] insert_statement(
                logged_entry(now, server_id, opt_str(server_host), success, opt_str(output), ctx@),
            ),
        r@.fully_bound(),
{
    let now = utc_now();
    log_action_at(now.as_str(), server_id, server_host, success, output, ctx)
}

/// Completes a registered entry. Any outcome but succeeded, failed and unknown is refused.
pub fn finish_audit_action(
    audit_id: i64,
    outcome: &str,
    exit_code: Option<i32>,
    output: Option<&str>,
    success: bool,
    duration_ms: i64,
) -> (r: AppResult<Statement>)
    ensures
        r is Ok <==> is_final_outcome(outcome@),
        r matches Ok(s) ==> s@ == finish_statement(
            audit_id,
            outcome@,
            exit_code,
            opt_str(output),
            success,
            duration_ms,
        ) && s@.fully_bound(),
        r matches Err(e) ==> e@ == ErrorView::InvalidInput("非法审计结果状态: "@ + outcome@),
{
    if !(same_text(outcome, "succeeded") || same_text(outcome, "failed") || same_text(
        outcome,
        "unknown",
    )) {
        return Err(AppError::InvalidInput("非法审计结果状态: ".to_owned().concat(outcome)));
    }
    Ok(completion(audit_id, outcome, exit_code, output, success, duration_ms))
}

/// The statement that completes the entry `audit_id`.
pub(crate) fn completion(
    audit_id: i64,
    outcome: &str,
    exit_code: Option<i32>,
    output: Option<&str>,
    success: bool,
    duration_ms: i64,
) -> (r: Statement)
    ensures
        r@ == finish_statement(
            audit_id,
            outcome@,
            exit_code,
            opt_str(output),
            success,
            duration_ms,
        ),
        r@.fully_bound(),
{
    let kept = truncate_opt(output);
    proof {
        lemma_finish_audit_log_parameters();
    }
    Statement::new(FINISH_AUDIT_LOG)
        .bind_text(outcome)
        .bind_opt_integer(widen(exit_code))
        .bind_opt_text(borrow_opt(&kept))
        .bind_bool(success)
        .bind_integer(duration_ms)
        .bind_integer(audit_id)
}

/// The error for an entry that was not pending when it was to be completed.
pub open spec fn not_pending(audit_id: i64) -> ErrorView {
    ErrorView::Internal("审计记录 "@ + signed_decimal(audit_id as int) + " 不存在或已经完成"@)
}

/// Whether the entry was completed, given how many rows the statement changed: exactly one must
/// have been pending.
pub fn check_finished(audit_id: i64, rows_affected: u64) -> (r: AppResult<()>)
    ensures
        r is Ok <==> rows_affected == 1,
        r matches Err(e) ==> e@ == not_pending(audit_id),
{
    if rows_affected != 1 {
        let mut text = "审计记录 ".to_owned();
        text.append(write_i64(audit_id).as_str());
        text.append(" 不存在或已经完成");
        return Err(AppError::Internal(text));
    }
    Ok(())
}

/// A truncated output is a prefix of the output, followed by a note when anything was cut. What is
/// kept of the output itself never takes more than `OUTPUT_TRUNCATE` bytes, and the cut falls
/// between two characters as late as this allows.
pub proof fn law_truncated_output(s: Seq<char>)
    ensures
        byte_len(s) <= OUTPUT_TRUNCATE ==> truncated(s) == s,
        byte_len(s) > OUTPUT_TRUNCATE ==> exists|k: int|
            0 <= k < s.len() && truncated(s) == #[trigger] s.take(k) + "\n...(输出已截断,共 "@
                + decimal(s.len()) + " 字符)"@ && byte_len(s.take(k)) <= OUTPUT_TRUNCATE && byte_len(
                s.take(k + 1),
            ) > OUTPUT_TRUNCATE,
{
    let kept = clip(s, OUTPUT_TRUNCATE as nat);
    law_clip_is_longest_fitting_prefix(s, OUTPUT_TRUNCATE as nat);
    let k = kept.len() as int;
    assert(s.take(k) =~= kept);
    if byte_len(s) > OUTPUT_TRUNCATE {
        assert(s.take(s.len() as int) =~= s);
        assert(byte_len(s.take(k + 1)) > OUTPUT_TRUNCATE);
    }
}

/// An output of at most 2000 bytes in UTF-8 is kept as it is. Of a longer one those characters are
/// kept that fit 2000 bytes, and the note behind them gives the number of its characters.
pub proof fn law_outputs_are_cut_at_2000_bytes(s: Seq<char>)
    ensures
        encode_utf8(s).len() <= 2000 ==> truncated(s) == s,
        encode_utf8(s).len() > 2000 ==> exists|k: int|
            0 <= k < s.len() && truncated(s) == #[trigger] s.take(k) + "\n...(输出已截断,共 "@
                + decimal(s.len()) + " 字符)"@ && encode_utf8(s.take(k)).len() <= 2000
                && encode_utf8(s.take(k + 1)).len() > 2000,
        opt_truncated(Some(s)) == Some(truncated(s)),
        opt_truncated(None) == None::<Seq<char>>,
{
    law_truncated_output(s);
    if encode_utf8(s).len() > 2000 {
        assert(byte_len(s) > OUTPUT_TRUNCATE);
        let k = choose|k: int|
            0 <= k < s.len() && truncated(s) == #[trigger] s.take(k) + "\n...(输出已截断,共 "@
                + decimal(s.len()) + " 字符)"@ && byte_len(s.take(k)) <= OUTPUT_TRUNCATE && byte_len(
                s.take(k + 1),
            ) > OUTPUT_TRUNCATE;
        assert(encode_utf8(s.take(k)).len() <= 2000);
    }
}

/// A context is seen as what it holds, field by field.
pub proof fn law_contexts_are_seen_as_they_are(ctx: AuditContext)
    ensures
        ctx@.source == ctx.source@,
        ctx@.tool_name == ctx.tool_name@,
        ctx@.session_id is Some <==> ctx.session_id is Some,
        ctx.session_id matches Some(t) ==> ctx@.session_id == Some(t@),
        ctx@.command is Some <==> ctx.command is Some,
        ctx.command matches Some(t) ==> ctx@.command == Some(t@),
        ctx@.args is Some <==> ctx.args is Some,
        ctx.args matches Some(t) ==> ctx@.args == Some(t@),
        ctx@.approved_by is Some <==> ctx.approved_by is Some,
        ctx.approved_by matches Some(t) ==> ctx@.approved_by == Some(t@),
        ctx@.proposal_id is Some <==> ctx.proposal_id is Some,
        ctx.proposal_id matches Some(t) ==> ctx@.proposal_id == Some(t@),
{
}

/// Exactly three outcomes complete an entry, and the refusal of an entry that is not pending names
/// it.
pub proof fn law_three_outcomes_are_final(outcome: Seq<char>, audit_id: i64)
    ensures
        is_final_outcome(outcome) <==> outcome == "succeeded"@ || outcome == "failed"@ || outcome
            == "unknown"@,
        not_pending(audit_id) == ErrorView::Internal(
            "审计记录 "@ + signed_decimal(audit_id as int) + " 不存在或已经完成"@,
        ),
{
}

} // verus!

//! What an audited execution sends, records and reports, in terms of what was asked for and what
//! came back.
use vstd::prelude::*;

use crate::audit::{pending_entry, truncated, AuditContext};
use crate::audit_laws::lemma_entry_row;
use crate::decimal::signed_decimal;
use crate::error::{result_view, AppError, AppResult, ErrorView};
use crate::executor::{
    recorded_exit, recorded_outcome, recorded_output, recorded_success, started, CommandResult,
    CommandView, CompletedView, RegisteredView,
};
use crate::form_texts::lemma_entry_insert_text;
use crate::forms::entry_insert;
use crate::queries::FINISH_AUDIT_LOG;
use crate::sql::ValueView;
use crate::tables::{cell, string_cell, Cell};
use crate::text::first_of;

verus! {

/// The text that an error was made with.
pub open spec fn error_text(e: AppError) -> Seq<char> {
    match e {
        AppError::NotFound(t) => t@,
        AppError::InvalidInput(t) => t@,
        AppError::Internal(t) => t@,
        AppError::Database(t) => t@,
        AppError::Ssh(t) => t@,
    }
}

/// The result of a command is seen as it is, and it is a success exactly when the command exited
/// with 0.
pub proof fn law_exit_code_zero_is_success(result: CommandResult, c: CommandView)
    ensures
        result@.exit_code == result.exit_code,
        result@.output == result.output@,
        c.success() <==> c.exit_code == 0,
{
}

/// What is recorded of a command that ran: its exit code, success or failure according to it, and
/// as output what the command printed, whether it succeeded or failed, cut to what the log keeps.
/// Where the connection failed, the outcome is unknown, there is no exit code, and the output is the
/// text of the error. The time that it took, the entry and the server are those of the execution.
pub proof fn law_record_holds_what_came_back(
    execution: RegisteredView,
    result: AppResult<CommandResult>,
    duration_ms: i64,
)
    ensures
        ({
            let done = execution.completed(result_view(result), duration_ms);
            let binds = done.update.binds;
            &&& done.server_id == execution.server_id
            &&& done.audit_id == execution.audit_id
            &&& done.result == result_view(result)
            &&& done.update.sql == FINISH_AUDIT_LOG@
            &&& binds.len() == 6
            &&& result matches Ok(c) ==> {
                &&& binds[0] == ValueView::Text(
                    if c.exit_code == 0 {
                        "succeeded"@
                    } else {
                        "failed"@
                    },
                )
                &&& binds[1] == ValueView::Integer(c.exit_code as i64)
                &&& binds[2] == ValueView::Text(truncated(c.output@))
                &&& binds[3] == ValueView::Boolean(c.exit_code == 0)
            }
            &&& result matches Err(e) ==> {
                &&& binds[0] == ValueView::Text("unknown"@)
                &&& binds[1] == ValueView::Null
                &&& binds[2] == ValueView::Text(truncated(error_text(e)))
                &&& binds[3] == ValueView::Boolean(false)
            }
            &&& binds[4] == ValueView::Integer(duration_ms)
            &&& binds[5] == ValueView::Integer(execution.audit_id)
        }),
{
}

/// What is recorded of two results of one execution is the same only when the results are, as far as
/// the log can tell: the same exit code, and the same printed text where it is kept whole.
pub proof fn law_records_tell_results_apart(
    execution: RegisteredView,
    a: CommandResult,
    b: CommandResult,
    duration_ms: i64,
)
    requires
        execution.completed(Ok(a@), duration_ms).update == execution.completed(
            Ok(b@),
            duration_ms,
        ).update,
    ensures
        a.exit_code == b.exit_code,
        truncated(a.output@) == truncated(b.output@),
{
    let x: AppResult<CommandResult> = Ok(a);
    let y: AppResult<CommandResult> = Ok(b);
    law_record_holds_what_came_back(execution, x, duration_ms);
    law_record_holds_what_came_back(execution, y, duration_ms);
    let p = execution.completed(Ok(a@), duration_ms).update.binds;
    let q = execution.completed(Ok(b@), duration_ms).update.binds;
    assert(p[1] == ValueView::Integer(a.exit_code as i64));
    assert(q[1] == ValueView::Integer(b.exit_code as i64));
    assert(p[2] == ValueView::Text(truncated(a.output@)));
    assert(q[2] == ValueView::Text(truncated(b.output@)));
}

/// The parts of a record, one by one: they depend on the exit code, the printed text and the text of
/// the error alone.
pub proof fn law_parts_of_a_record(result: AppResult<CommandResult>)
    ensures
        result matches Ok(c) ==> {
            &&& recorded_success(result_view(result)) == (c.exit_code == 0)
            &&& c.exit_code == 0 ==> recorded_outcome(result_view(result)) == "succeeded"@
            &&& c.exit_code != 0 ==> recorded_outcome(result_view(result)) == "failed"@
            &&& recorded_exit(result_view(result)) == Some(c.exit_code)
            &&& recorded_output(result_view(result)) == c.output@
        },
        result matches Err(e) ==> {
            &&& !recorded_success(result_view(result))
            &&& recorded_outcome(result_view(result)) == "unknown"@
            &&& recorded_exit(result_view(result)) is None
            &&& recorded_output(result_view(result)) == error_text(e)
        },
{
}

/// What is registered before a command is sent: a pending entry with the server, with everything
/// that the context gives, and with the command of the context or else the command itself. What is
/// sent once it is registered is always the command itself, to that server.
pub proof fn law_command_is_registered_and_sent_as_asked(
    now: &str,
    server_id: i64,
    server_host: &str,
    command: &str,
    ctx: AuditContext,
    audit_id: i64,
)
    ensures
        ({
            let pending = started(now@, server_id, server_host@, command@, ctx@);
            let row = entry_insert().offered(pending.intent.binds, seq![], Map::empty()).insert(
                "id"@,
                Cell::Integer(audit_id as int),
            );
            &&& pending.intent.sql == entry_insert().text_returning("id"@)
            &&& cell(row, "timestamp"@) == Cell::Text(now@)
            &&& cell(row, "session_id"@) == string_cell(ctx.session_id)
            &&& cell(row, "server_id"@) == Cell::Integer(server_id as int)
            &&& cell(row, "server_host"@) == Cell::Text(server_host@)
            &&& cell(row, "source"@) == Cell::Text(ctx.source@)
            &&& cell(row, "tool_name"@) == Cell::Text(ctx.tool_name@)
            &&& ctx.command matches Some(c) ==> cell(row, "command"@) == Cell::Text(c@)
            &&& ctx.command is None ==> cell(row, "command"@) == Cell::Text(command@)
            &&& cell(row, "args"@) == string_cell(ctx.args)
            &&& cell(row, "approved_by"@) == string_cell(ctx.approved_by)
            &&& cell(row, "proposal_id"@) == string_cell(ctx.proposal_id)
            &&& cell(row, "outcome"@) == Cell::Text("pending"@)
            &&& cell(row, "success"@) == Cell::Integer(0)
            &&& cell(row, "exit_code"@) == Cell::Null
            &&& cell(row, "output"@) == Cell::Null
            &&& pending.registered(Ok(audit_id)) == Ok::<RegisteredView, ErrorView>(
                RegisteredView { server_id, command: command@, audit_id },
            )
            &&& forall|e: ErrorView| #[trigger]
                pending.registered(Err(e)) == Err::<RegisteredView, ErrorView>(e)
        }),
{
    lemma_entry_insert_text();
    lemma_entry_row(
        pending_entry(
            now@,
            Some(server_id),
            Some(server_host@),
            first_of(ctx@.command, Some(command@)),
            ctx@,
        ),
        audit_id,
    );
}

/// What the caller is told. With exactly one entry completed, it is the result of the command and
/// the id of the entry, or the error of the connection. Otherwise it is an error that names the
/// server and the entry and says why the result is not on record, whatever the command did.
pub proof fn law_caller_is_told_what_is_on_record(
    done: CompletedView,
    updated: AppResult<u64>,
)
    ensures
        updated matches Ok(n) ==> (n == 1 ==> {
            &&& done.result matches Ok(c) ==> done.recorded(result_view(updated)) == Ok::<
                (CommandView, i64),
                ErrorView,
            >((c, done.audit_id))
            &&& done.result matches Err(e) ==> done.recorded(result_view(updated)) == Err::<
                (CommandView, i64),
                ErrorView,
            >(e)
        }),
        updated matches Ok(n) ==> (n != 1 ==> done.recorded(result_view(updated)) == Err::<
            (CommandView, i64),
            ErrorView,
        >(
            ErrorView::Internal(
                "命令可能已在服务器 "@ + signed_decimal(done.server_id as int)
                    + " 上执行，但审计结果更新失败（audit_id="@ + signed_decimal(
                    done.audit_id as int,
                ) + "）："@ + ("审计记录 "@ + signed_decimal(done.audit_id as int)
                    + " 不存在或已经完成"@) + "。请人工核对后再操作"@,
            ),
        )),
        updated matches Err(e) ==> done.recorded(result_view(updated)) == Err::<
            (CommandView, i64),
            ErrorView,
        >(
            ErrorView::Internal(
                "命令可能已在服务器 "@ + signed_decimal(done.server_id as int)
                    + " 上执行，但审计结果更新失败（audit_id="@ + signed_decimal(
                    done.audit_id as int,
                ) + "）："@ + error_text(e) + "。请人工核对后再操作"@,
            ),
        ),
{
}

} // verus!

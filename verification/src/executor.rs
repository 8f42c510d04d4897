//! The single way out for commands: every structured command is executed and audited here.
//!
//! Before a command is sent to a server, its intent is registered as a pending audit log entry.
//! When it has run, the entry is completed. The types of this module carry an execution through
//! these steps; the database and the connection to the server are driven from outside.
use vstd::prelude::*;
use vstd::string::*;

use crate::audit::{
    begin_audit_action_at, check_finished, completion, finish_statement, insert_statement,
    is_final_outcome, not_pending, pending_entry, AuditContext, ContextView,
};
use crate::clock::{is_utc_timestamp, utc_now};
use crate::decimal::{signed_decimal, write_i64};
use crate::error::{result_view, AppError, AppResult, ErrorView};
use crate::sql::{Statement, StatementView};
use crate::text::{borrow_opt, first_of};

verus! {

/// What a command did on a server.
#[derive(Debug)]
pub struct CommandResult {
    pub exit_code: i32,
    /// What it printed, both streams together.
    pub output: String,
}

/// The mathematical content of a `CommandResult`.
pub struct CommandView {
    pub exit_code: i32,
    pub output: Seq<char>,
}

impl View for CommandResult {
    type V = CommandView;

    open spec fn view(&self) -> CommandView {
        CommandView { exit_code: self.exit_code, output: self.output@ }
    }
}

impl CommandView {
    /// A command succeeds when it exits with 0.
    pub open spec fn success(self) -> bool {
        self.exit_code == 0
    }
}

impl CommandResult {
    /// Whether the command succeeded.
    pub fn success(&self) -> (r: bool)
        ensures
            r == self@.success(),
    {
        self.exit_code == 0
    }

    /// What the command printed.
    pub fn combined_output(&self) -> (r: String)
        ensures
            r@ == self@.output,
    {
        self.output.clone()
    }
}

/// The outcome recorded for a result. An error of the connection may have come after the command
/// was sent, so it leaves the outcome unknown.
pub open spec fn recorded_outcome(result: Result<CommandView, ErrorView>) -> Seq<char> {
    match result {
        Ok(c) => if c.success() {
            "succeeded"@
        } else {
            "failed"@
        },
        Err(_) => "unknown"@,
    }
}

/// Whether a result is recorded as a success.
pub open spec fn recorded_success(result: Result<CommandView, ErrorView>) -> bool {
    result matches Ok(c) && c.success()
}

/// The exit code recorded for a result.
pub open spec fn recorded_exit(result: Result<CommandView, ErrorView>) -> Option<i32> {
    match result {
        Ok(c) => Some(c.exit_code),
        Err(_) => None,
    }
}

/// The output recorded for a result: what the command printed, or what went wrong.
pub open spec fn recorded_output(result: Result<CommandView, ErrorView>) -> Seq<char> {
    match result {
        Ok(c) => c.output,
        Err(e) => e.text(),
    }
}

/// An execution whose intent is still to be registered. No command can be obtained from it.
pub struct PendingExecution {
    server_id: i64,
    command: String,
    intent: Statement,
}

/// The mathematical content of a `PendingExecution`.
pub struct PendingView {
    pub server_id: i64,
    pub command: Seq<char>,
    pub intent: StatementView,
}

/// An execution whose intent is registered: its command may be sent to the server.
pub struct RegisteredExecution {
    server_id: i64,
    command: String,
    audit_id: i64,
}

/// The mathematical content of a `RegisteredExecution`.
pub struct RegisteredView {
    pub server_id: i64,
    pub command: Seq<char>,
    pub audit_id: i64,
}

/// An execution whose command has been sent: its audit log entry is to be completed.
pub struct CompletedExecution {
    server_id: i64,
    audit_id: i64,
    result: AppResult<CommandResult>,
    update: Statement,
}

/// The mathematical content of a `CompletedExecution`.
pub struct CompletedView {
    pub server_id: i64,
    pub audit_id: i64,
    pub result: Result<CommandView, ErrorView>,
    pub update: StatementView,
}

impl View for PendingExecution {
    type V = PendingView;

    closed spec fn view(&self) -> PendingView {
        PendingView { server_id: self.server_id, command: self.command@, intent: self.intent@ }
    }
}

impl View for RegisteredExecution {
    type V = RegisteredView;

    closed spec fn view(&self) -> RegisteredView {
        RegisteredView {
            server_id: self.server_id,
            command: self.command@,
            audit_id: self.audit_id,
        }
    }
}

impl View for CompletedExecution {
    type V = CompletedView;

    closed spec fn view(&self) -> CompletedView {
        CompletedView {
            server_id: self.server_id,
            audit_id: self.audit_id,
            result: result_view(self.result),
            update: self.update@,
        }
    }
}

/// The start of an execution at the time `now`. The command of the context, where there is one, is
/// what gets recorded; the command itself is what will be sent.
pub open spec fn started(
    now: Seq<char>,
    server_id: i64,
    server_host: Seq<char>,
    command: Seq<char>,
    ctx: ContextView,
) -> PendingView {
    PendingView {
        server_id,
        command,
        intent: insert_statement(
            pending_entry(
                now,
                Some(server_id),
                Some(server_host),
                first_of(ctx.command, Some(command)),
                ctx,
            ),
        ),
    }
}

impl PendingView {
    /// What follows the attempt to register the intent, given the id of the new entry.
    pub open spec fn registered(self, inserted: Result<i64, ErrorView>) -> Result<
        RegisteredView,
        ErrorView,
    > {
        match inserted {
            Ok(audit_id) => Ok(
                RegisteredView { server_id: self.server_id, command: self.command, audit_id },
            ),
            Err(e) => Err(e),
        }
    }
}

impl RegisteredView {
    /// What follows the attempt to run the command.
    pub open spec fn completed(
        self,
        result: Result<CommandView, ErrorView>,
        duration_ms: i64,
    ) -> CompletedView {
        CompletedView {
            server_id: self.server_id,
            audit_id: self.audit_id,
            result,
            update: finish_statement(
                self.audit_id,
                recorded_outcome(result),
                recorded_exit(result),
                Some(recorded_output(result)),
                recorded_success(result),
                duration_ms,
            ),
        }
    }
}

/// Why an entry was not completed, given how many rows the attempt changed.
pub open spec fn finish_failure(audit_id: i64, updated: Result<u64, ErrorView>) -> Option<
    ErrorView,
> {
    match updated {
        Ok(n) => if n == 1 {
            None
        } else {
            Some(not_pending(audit_id))
        },
        Err(e) => Some(e),
    }
}

/// The error for a command that may have run but whose result is not on record.
pub open spec fn unrecorded(server_id: i64, audit_id: i64, why: ErrorView) -> ErrorView {
    ErrorView::Internal(
        "命令可能已在服务器 "@ + signed_decimal(server_id as int)
            + " 上执行，但审计结果更新失败（audit_id="@ + signed_decimal(audit_id as int) + "）："@
            + why.text() + "。请人工核对后再操作"@,
    )
}

impl CompletedView {
    /// What the caller gets after the attempt to complete the entry.
    pub open spec fn recorded(self, updated: Result<u64, ErrorView>) -> Result<
        (CommandView, i64),
        ErrorView,
    > {
        match finish_failure(self.audit_id, updated) {
            Some(e) => Err(unrecorded(self.server_id, self.audit_id, e)),
            None => match self.result {
                Ok(c) => Ok((c, self.audit_id)),
                Err(e) => Err(e),
            },
        }
    }
}

/// Starts, at the given time, the audited execution of a command on a server.
pub fn execute_and_audit_at(
    timestamp: &str,
    server_id: i64,
    server_host: &str,
    command: &str,
    ctx: &AuditContext,
) -> (r: PendingExecution)
    ensures
        r@ == started(timestamp@, server_id, server_host@, command@, ctx@),
        r@.intent.fully_bound(),
{
    let recorded = match borrow_opt(&ctx.command) {
        Some(c) => Some(c),
        None => Some(command),
    };
    let intent = begin_audit_action_at(timestamp, Some(server_id), Some(server_host), recorded, ctx);
    PendingExecution { server_id, command: command.to_owned(), intent }
}

/// Starts the audited execution of a command on a server.
pub fn execute_and_audit(
    server_id: i64,
    server_host: &str,
    command: &str,
    ctx: &AuditContext,
) -> (r: PendingExecution)
    ensures
        exists|now: Seq<char>|
            is_utc_timestamp(now) && r@ == #[trigger] started(
                now,
                server_id,
                server_host@,
                command@,
                ctx@,
            ),
        r@.intent.fully_bound(),
{
    let now = utc_now();
    execute_and_audit_at(now.as_str(), server_id, server_host, command, ctx)
}

impl PendingExecution {
    /// The statement that registers the intent.
    pub fn intent(&self) -> (r: &Statement)
        ensures
            r@ == self@.intent,
    {
        &self.intent
    }

    /// Goes on once the intent is registered, and gives up when it could not be.
    pub fn registered(self, inserted: AppResult<i64>) -> (r: AppResult<RegisteredExecution>)
        ensures
            result_view(r) == self@.registered(result_view(inserted)),
    {
        match inserted {
            Ok(audit_id) => Ok(
                RegisteredExecution { server_id: self.server_id, command: self.command, audit_id },
            ),
            Err(e) => Err(e),
        }
    }
}

impl RegisteredExecution {
    /// The server to send the command to.
    pub fn server_id(&self) -> (r: i64)
        ensures
            r == self@.server_id,
    {
        self.server_id
    }

    /// The command to send.
    pub fn command(&self) -> (r: &str)
        ensures
            r@ == self@.command,
    {
        self.command.as_str()
    }

    /// The audit log entry of the execution.
    pub fn audit_id(&self) -> (r: i64)
        ensures
            r == self@.audit_id,
    {
        self.audit_id
    }

    /// Goes on with what came of sending the command.
    pub fn completed(self, result: AppResult<CommandResult>, duration_ms: i64) -> (r:
        CompletedExecution)
        ensures
            r@ == self@.completed(result_view(result), duration_ms),
            r@.update.fully_bound(),
    {
        let (success, name, exit_code, output) = match &result {
            Ok(c) => (
                c.success(),
                if c.success() {
                    "succeeded"
                } else {
                    "failed"
                },
                Some(c.exit_code),
                c.combined_output(),
            ),
            Err(e) => (false, "unknown", None, e.to_string()),
        };
        let update = completion(
            self.audit_id,
            name,
            exit_code,
            Some(output.as_str()),
            success,
            duration_ms,
        );
        CompletedExecution {
            server_id: self.server_id,
            audit_id: self.audit_id,
            result,
            update,
        }
    }
}

impl CompletedExecution {
    /// The statement that completes the audit log entry.
    pub fn update(&self) -> (r: &Statement)
        ensures
            r@ == self@.update,
    {
        &self.update
    }

    /// What the caller of the execution gets, given how many rows the statement changed. A result
    /// that is not on record is withheld.
    pub fn recorded(self, updated: AppResult<u64>) -> (r: AppResult<(CommandResult, i64)>)
        ensures
            result_view(r) == self@.recorded(result_view(updated)),
    {
        let finished = match updated {
            Ok(n) => check_finished(self.audit_id, n),
            Err(e) => Err(e),
        };
        match finished {
            Ok(_) => match self.result {
                Ok(c) => Ok((c, self.audit_id)),
                Err(e) => Err(e),
            },
            Err(e) => {
                let mut text = "命令可能已在服务器 ".to_owned();
                text.append(write_i64(self.server_id).as_str());
                text.append(" 上执行，但审计结果更新失败（audit_id=");
                text.append(write_i64(self.audit_id).as_str());
                text.append("）：");
                text.append(e.to_string().as_str());
                text.append("。请人工核对后再操作");
                Err(AppError::Internal(text))
            },
        }
    }
}

/// A command is sent only once its intent is on record: while the intent is refused, there is no
/// execution to send anything from, and what is sent afterwards is the command that was asked for,
/// to the server that was asked for.
pub proof fn law_intent_comes_first(
    now: Seq<char>,
    server_id: i64,
    server_host: Seq<char>,
    command: Seq<char>,
    ctx: ContextView,
    inserted: Result<i64, ErrorView>,
)
    ensures
        ({
            let next = started(now, server_id, server_host, command, ctx).registered(inserted);
            &&& next is Ok <==> inserted is Ok
            &&& next matches Err(e) ==> inserted == Err::<i64, ErrorView>(e)
            &&& next matches Ok(r) ==> r.server_id == server_id && r.command == command
                && inserted == Ok::<i64, ErrorView>(r.audit_id)
        }),
{
}

/// The record of an execution is a final one and agrees with its result: success means that the
/// command exited with 0, an exit code is on record whenever the command reported one, and the
/// outcome is unknown exactly when the connection failed.
pub proof fn law_record_agrees_with_result(result: Result<CommandView, ErrorView>)
    ensures
        is_final_outcome(recorded_outcome(result)),
        recorded_success(result) <==> recorded_outcome(result) == "succeeded"@,
        recorded_success(result) <==> recorded_exit(result) == Some(0i32),
        recorded_outcome(result) == "unknown"@ <==> result is Err,
        recorded_exit(result) is Some <==> result is Ok,
{
    reveal_strlit("succeeded");
    reveal_strlit("failed");
    reveal_strlit("unknown");
    assert("succeeded"@.len() == 9 && "failed"@.len() == 6 && "unknown"@.len() == 7);
}

/// The caller learns the result of a command only when the command ran and exactly one pending
/// entry was completed with it.
pub proof fn law_only_recorded_results_are_reported(
    execution: RegisteredView,
    result: Result<CommandView, ErrorView>,
    duration_ms: i64,
    updated: Result<u64, ErrorView>,
)
    ensures
        ({
            let reported = execution.completed(result, duration_ms).recorded(updated);
            &&& reported is Ok <==> result is Ok && updated == Ok::<u64, ErrorView>(1)
            &&& reported matches Ok(r) ==> result == Ok::<CommandView, ErrorView>(r.0) && r.1
                == execution.audit_id
            &&& updated != Ok::<u64, ErrorView>(1) ==> (reported matches Err(e) && e
                is Internal)
        }),
{
}

} // verus!

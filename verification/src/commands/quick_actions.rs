//! Running quick actions.
//!
//! A quick action is run in the version that the user has seen, with the confirmation that it
//! calls for. Its steps run one after the other, each behind its guard, and the first command that
//! exits with anything but 0 ends the run.
use vstd::prelude::*;
use vstd::string::*;

use crate::decimal::{decimal, signed_decimal, write_i64, write_u64};
use crate::error::{result_view, AppError, AppResult, ErrorView};
use crate::audit::{AuditContext, ContextView};
use crate::clock::is_utc_timestamp;
use crate::commands::steps::{
    checked_steps, parse_quick_action_steps, parsed_view, steps_view, QuickActionCommandStep,
    StepView,
};
use crate::executor::{
    execute_and_audit, started, CommandResult, CommandView, PendingExecution,
};
use crate::json::{json_string, write_json_string};
use crate::models::QuickAction;
use crate::queries::{
    GET_QUICK_ACTION, GET_SERVER_HOST, lemma_get_quick_action_parameters,
    lemma_get_server_host_parameters,
};
use crate::sql::{query, Statement, ValueView};
use crate::text::{blank, is_blank, opt_text, same_text};

verus! {

/// What became of one command of a quick action.
#[derive(Debug)]
pub struct QuickActionStepResult {
    pub step_index: usize,
    /// guard or command.
    pub kind: String,
    pub command: String,
    pub audit_id: i64,
    pub exit_code: i32,
    pub success: bool,
}

/// What became of a quick action.
#[derive(Debug)]
pub struct QuickActionExecutionResult {
    pub action_id: String,
    pub success: bool,
    /// The step that ended the run, when one did.
    pub stopped_at: Option<usize>,
    pub steps: Vec<QuickActionStepResult>,
}

/// The mathematical content of a `QuickActionStepResult`.
pub struct StepResultView {
    pub step_index: usize,
    pub kind: Seq<char>,
    pub command: Seq<char>,
    pub audit_id: i64,
    pub exit_code: i32,
    pub success: bool,
}

/// The mathematical content of a `QuickActionExecutionResult`.
pub struct ExecutionView {
    pub action_id: Seq<char>,
    pub success: bool,
    pub stopped_at: Option<usize>,
    pub steps: Seq<StepResultView>,
}

impl View for QuickActionStepResult {
    type V = StepResultView;

    open spec fn view(&self) -> StepResultView {
        StepResultView {
            step_index: self.step_index,
            kind: self.kind@,
            command: self.command@,
            audit_id: self.audit_id,
            exit_code: self.exit_code,
            success: self.success,
        }
    }
}

impl View for QuickActionExecutionResult {
    type V = ExecutionView;

    open spec fn view(&self) -> ExecutionView {
        ExecutionView {
            action_id: self.action_id@,
            success: self.success,
            stopped_at: self.stopped_at,
            steps: self.steps@.map_values(|s: QuickActionStepResult| s@),
        }
    }
}

/// A command that a quick action runs: the guard or the command of one of its steps.
struct PlannedCommand {
    step_index: usize,
    is_guard: bool,
    command: String,
}

/// The mathematical content of a planned command.
pub struct PlannedView {
    pub step_index: usize,
    pub is_guard: bool,
    pub command: Seq<char>,
}

impl View for PlannedCommand {
    type V = PlannedView;

    closed spec fn view(&self) -> PlannedView {
        PlannedView {
            step_index: self.step_index,
            is_guard: self.is_guard,
            command: self.command@,
        }
    }
}

impl PlannedView {
    /// How the result of the command is labelled.
    pub open spec fn kind(self) -> Seq<char> {
        if self.is_guard {
            "guard"@
        } else {
            "command"@
        }
    }

    /// The tool under which the command is audited.
    pub open spec fn tool_name(self) -> Seq<char> {
        if self.is_guard {
            "quick_action_guard"@
        } else {
            "run_quick_action"@
        }
    }

    /// What is reported of the command.
    pub open spec fn result(self, done: CommandView, audit_id: i64) -> StepResultView {
        StepResultView {
            step_index: self.step_index,
            kind: self.kind(),
            command: self.command,
            audit_id,
            exit_code: done.exit_code,
            success: done.success(),
        }
    }
}

/// Whether a step has a guard. A blank one counts as none.
pub open spec fn has_guard(step: StepView) -> bool {
    step.guard matches Some(g) && !is_blank(g)
}

/// The guard of the step at index `i`.
pub open spec fn guard_of(step: StepView, i: int) -> PlannedView {
    PlannedView { step_index: i as usize, is_guard: true, command: step.guard->0 }
}

/// The command of the step at index `i`.
pub open spec fn command_of(step: StepView, i: int) -> PlannedView {
    PlannedView { step_index: i as usize, is_guard: false, command: step.value }
}

/// What the step at index `i` runs: its guard, if it has one, then its command.
pub open spec fn step_plan(step: StepView, i: int) -> Seq<PlannedView> {
    if has_guard(step) {
        seq![guard_of(step, i), command_of(step, i)]
    } else {
        seq![command_of(step, i)]
    }
}

/// What the first `n` steps run, in order.
pub open spec fn plan_upto(steps: Seq<StepView>, n: int) -> Seq<PlannedView>
    decreases n,
{
    if n <= 0 {
        seq![]
    } else {
        plan_upto(steps, n - 1) + step_plan(steps[n - 1], n - 1)
    }
}

/// What a quick action runs, in order.
pub open spec fn plan(steps: Seq<StepView>) -> Seq<PlannedView> {
    plan_upto(steps, steps.len() as int)
}

/// Who approves the commands of a run.
pub open spec fn approver(user_confirmed: bool) -> Seq<char> {
    if user_confirmed {
        "user:quick_action"@
    } else {
        "policy:always_approve"@
    }
}

/// The arguments recorded with a command of a quick action, as JSON.
pub open spec fn args_json(action_id: Seq<char>, step_index: usize) -> Seq<char> {
    "{\"action_id\":"@ + json_string(action_id) + ",\"step\":"@ + decimal(step_index as nat) + "}"@
}

/// Lays out what a quick action runs.
fn make_plan(steps: &Vec<QuickActionCommandStep>) -> (r: Vec<PlannedCommand>)
    ensures
        r@.map_values(|p: PlannedCommand| p@) == plan(steps_view(steps@)),
{
    let ghost all = steps_view(steps@);
    let mut r: Vec<PlannedCommand> = Vec::new();
    let mut i: usize = 0;
    assert(r@.map_values(|p: PlannedCommand| p@) =~= plan_upto(all, 0));
    while i < steps.len()
        invariant
            i <= steps@.len(),
            all == steps_view(steps@),
            r@.map_values(|p: PlannedCommand| p@) == plan_upto(all, i as int),
        decreases steps@.len() - i,
    {
        let step = &steps[i];
        assert(all[i as int] == step@);
        let ghost before = r@.map_values(|p: PlannedCommand| p@);
        if let Some(guard) = &step.guard {
            if !blank(guard.as_str()) {
                r.push(PlannedCommand { step_index: i, is_guard: true, command: guard.clone() });
                assert(r@.map_values(|p: PlannedCommand| p@) =~= before + seq![
                    guard_of(step@, i as int),
                ]);
            }
        }
        let ghost middle = r@.map_values(|p: PlannedCommand| p@);
        r.push(PlannedCommand { step_index: i, is_guard: false, command: step.value.clone() });
        assert(r@.map_values(|p: PlannedCommand| p@) =~= middle + seq![
            command_of(step@, i as int),
        ]);
        assert(r@.map_values(|p: PlannedCommand| p@) =~= before + step_plan(step@, i as int));
        i += 1;
    }
    r
}

/// A request to run a quick action on a server.
pub struct QuickActionRequest {
    action_id: String,
    server_id: i64,
    expected_updated_at: String,
    user_confirmed: bool,
}

/// The mathematical content of a `QuickActionRequest`.
pub struct RequestView {
    pub action_id: Seq<char>,
    pub server_id: i64,
    pub expected_updated_at: Seq<char>,
    pub user_confirmed: bool,
}

/// A request for a quick action that is unchanged since the user has seen it.
pub struct PreviewedAction {
    action_id: String,
    server_id: i64,
    user_confirmed: bool,
    approval: String,
    steps: String,
}

/// The mathematical content of a `PreviewedAction`.
pub struct PreviewedView {
    pub action_id: Seq<char>,
    pub server_id: i64,
    pub user_confirmed: bool,
    pub approval: Seq<char>,
    pub steps: Seq<char>,
}

/// A quick action that has the confirmation it calls for.
pub struct ApprovedAction {
    action_id: String,
    server_id: i64,
    user_confirmed: bool,
    steps: Vec<QuickActionCommandStep>,
}

/// The mathematical content of an `ApprovedAction`.
pub struct ApprovedView {
    pub action_id: Seq<char>,
    pub server_id: i64,
    pub user_confirmed: bool,
    pub steps: Seq<StepView>,
}

impl View for QuickActionRequest {
    type V = RequestView;

    closed spec fn view(&self) -> RequestView {
        RequestView {
            action_id: self.action_id@,
            server_id: self.server_id,
            expected_updated_at: self.expected_updated_at@,
            user_confirmed: self.user_confirmed,
        }
    }
}

impl View for PreviewedAction {
    type V = PreviewedView;

    closed spec fn view(&self) -> PreviewedView {
        PreviewedView {
            action_id: self.action_id@,
            server_id: self.server_id,
            user_confirmed: self.user_confirmed,
            approval: self.approval@,
            steps: self.steps@,
        }
    }
}

impl View for ApprovedAction {
    type V = ApprovedView;

    closed spec fn view(&self) -> ApprovedView {
        ApprovedView {
            action_id: self.action_id@,
            server_id: self.server_id,
            user_confirmed: self.user_confirmed,
            steps: steps_view(self.steps@),
        }
    }
}

/// Whether running a quick action calls for the confirmation of the user.
pub open spec fn requires_confirmation(approval: Seq<char>, steps: Seq<StepView>) -> bool {
    approval != "always_approve"@ || exists|i: int|
        0 <= i < steps.len() && (#[trigger] steps[i]).confirm
}

impl RequestView {
    /// What follows looking the quick action up.
    pub open spec fn loaded(self, row: Option<QuickAction>) -> Result<PreviewedView, ErrorView> {
        match row {
            None => Err(ErrorView::NotFound("快捷指令 "@ + self.action_id)),
            Some(action) => if action.updated_at@ != self.expected_updated_at {
                Err(ErrorView::InvalidInput("快捷指令在预览后已被修改，请重新检查并批准"@))
            } else {
                Ok(
                    PreviewedView {
                        action_id: self.action_id,
                        server_id: self.server_id,
                        user_confirmed: self.user_confirmed,
                        approval: action.approval@,
                        steps: action.steps@,
                    },
                )
            },
        }
    }
}

impl PreviewedView {
    /// What follows reading the steps.
    pub open spec fn parsed(self, parsed: Result<Seq<StepView>, Seq<char>>) -> Result<
        ApprovedView,
        ErrorView,
    > {
        match checked_steps(parsed) {
            Err(e) => Err(e),
            Ok(steps) => if requires_confirmation(self.approval, steps) && !self.user_confirmed {
                Err(ErrorView::InvalidInput("该快捷指令需要人工确认"@))
            } else {
                Ok(
                    ApprovedView {
                        action_id: self.action_id,
                        server_id: self.server_id,
                        user_confirmed: self.user_confirmed,
                        steps,
                    },
                )
            },
        }
    }
}

/// Starts to run a quick action on a server.
pub fn execute_quick_action(
    action_id: &str,
    server_id: i64,
    expected_updated_at: &str,
    user_confirmed: bool,
) -> (r: QuickActionRequest)
    ensures
        r@ == (RequestView {
            action_id: action_id@,
            server_id,
            expected_updated_at: expected_updated_at@,
            user_confirmed,
        }),
{
    QuickActionRequest {
        action_id: action_id.to_owned(),
        server_id,
        expected_updated_at: expected_updated_at.to_owned(),
        user_confirmed,
    }
}

impl QuickActionRequest {
    /// The statement that looks the quick action up.
    pub fn lookup(&self) -> (r: Statement)
        ensures
            r@ == query(GET_QUICK_ACTION@).bind(ValueView::Text(self@.action_id)),
            r@.fully_bound(),
    {
        proof {
            lemma_get_quick_action_parameters();
        }
        Statement::new(GET_QUICK_ACTION).bind_text(self.action_id.as_str())
    }

    /// Goes on with the quick action that was found, unless it was changed after the user has seen
    /// it.
    pub fn loaded(self, row: Option<QuickAction>) -> (r: AppResult<PreviewedAction>)
        ensures
            result_view(r) == self@.loaded(row),
    {
        match row {
            None => Err(
                AppError::NotFound("快捷指令 ".to_owned().concat(self.action_id.as_str())),
            ),
            Some(action) => {
                if action.updated_at != self.expected_updated_at {
                    return Err(
                        AppError::InvalidInput(
                            "快捷指令在预览后已被修改，请重新检查并批准".to_owned(),
                        ),
                    );
                }
                Ok(
                    PreviewedAction {
                        action_id: self.action_id,
                        server_id: self.server_id,
                        user_confirmed: self.user_confirmed,
                        approval: action.approval,
                        steps: action.steps,
                    },
                )
            },
        }
    }
}

/// Whether any of the steps calls for the confirmation of the user.
fn any_confirm(steps: &Vec<QuickActionCommandStep>) -> (r: bool)
    ensures
        r == exists|i: int|
            0 <= i < steps@.len() && (#[trigger] steps_view(steps@)[i]).confirm,
{
    let ghost all = steps_view(steps@);
    let mut i: usize = 0;
    while i < steps.len()
        invariant
            i <= steps@.len(),
            all == steps_view(steps@),
            forall|j: int| 0 <= j < i ==> !(#[trigger] all[j]).confirm,
        decreases steps@.len() - i,
    {
        if steps[i].confirm {
            assert(all[i as int].confirm);
            return true;
        }
        i += 1;
    }
    false
}

impl PreviewedAction {
    /// The steps of the quick action, as a JSON array.
    pub fn steps(&self) -> (r: &str)
        ensures
            r@ == self@.steps,
    {
        self.steps.as_str()
    }

    /// Goes on with what reading the steps gave, when they are in order and the user has confirmed
    /// a run that calls for it.
    pub fn parsed(self, parsed: Result<Vec<QuickActionCommandStep>, String>) -> (r: AppResult<
        ApprovedAction,
    >)
        ensures
            result_view(r) == self@.parsed(parsed_view(parsed)),
    {
        match parse_quick_action_steps(parsed) {
            Err(e) => Err(e),
            Ok(steps) => {
                let requires_confirmation = !same_text(self.approval.as_str(), "always_approve")
                    || any_confirm(&steps);
                if requires_confirmation && !self.user_confirmed {
                    return Err(AppError::InvalidInput("该快捷指令需要人工确认".to_owned()));
                }
                Ok(
                    ApprovedAction {
                        action_id: self.action_id,
                        server_id: self.server_id,
                        user_confirmed: self.user_confirmed,
                        steps,
                    },
                )
            },
        }
    }
}

/// A quick action under way: the commands before the current one have all succeeded.
pub struct QuickActionRun {
    action_id: String,
    server_id: i64,
    server_host: String,
    user_confirmed: bool,
    plan: Vec<PlannedCommand>,
    results: Vec<QuickActionStepResult>,
}

/// The mathematical content of a `QuickActionRun`.
#[verifier::ext_equal]
pub struct RunView {
    pub action_id: Seq<char>,
    pub server_id: i64,
    pub server_host: Seq<char>,
    pub user_confirmed: bool,
    pub plan: Seq<PlannedView>,
    pub results: Seq<StepResultView>,
}

/// How far a quick action has come.
pub enum Progress {
    /// The next command is to be run.
    Next(QuickActionRun),
    /// The run is over.
    Done(QuickActionExecutionResult),
}

/// The mathematical content of a `Progress`.
pub enum ProgressView {
    Next(RunView),
    Done(ExecutionView),
}

impl View for QuickActionRun {
    type V = RunView;

    closed spec fn view(&self) -> RunView {
        RunView {
            action_id: self.action_id@,
            server_id: self.server_id,
            server_host: self.server_host@,
            user_confirmed: self.user_confirmed,
            plan: self.plan@.map_values(|p: PlannedCommand| p@),
            results: self.results@.map_values(|s: QuickActionStepResult| s@),
        }
    }
}

impl View for Progress {
    type V = ProgressView;

    open spec fn view(&self) -> ProgressView {
        match *self {
            Progress::Next(run) => ProgressView::Next(run@),
            Progress::Done(result) => ProgressView::Done(result@),
        }
    }
}

impl ApprovedView {
    /// What follows looking the host name of the server up.
    pub open spec fn located(self, host: Option<Seq<char>>) -> Result<RunView, ErrorView> {
        match host {
            None => Err(ErrorView::NotFound("服务器 "@ + signed_decimal(self.server_id as int))),
            Some(server_host) => Ok(
                RunView {
                    action_id: self.action_id,
                    server_id: self.server_id,
                    server_host,
                    user_confirmed: self.user_confirmed,
                    plan: plan(self.steps),
                    results: seq![],
                },
            ),
        }
    }
}

impl RunView {
    /// The command to run now.
    pub open spec fn current(self) -> PlannedView {
        self.plan[self.results.len() as int]
    }

    /// What is audited with the current command.
    pub open spec fn context(self) -> ContextView {
        ContextView {
            source: "quick_action"@,
            session_id: None,
            tool_name: self.current().tool_name(),
            command: Some(self.current().command),
            args: Some(args_json(self.action_id, self.current().step_index)),
            approved_by: Some(approver(self.user_confirmed)),
            proposal_id: None,
        }
    }

    /// What follows the execution of the current command. One that could not be executed or
    /// recorded ends the run with its error; one that exits with anything but 0 stops it.
    pub open spec fn executed(self, reply: Result<(CommandView, i64), ErrorView>) -> Result<
        ProgressView,
        ErrorView,
    > {
        match reply {
            Err(e) => Err(e),
            Ok(done) => {
                let results = self.results.push(self.current().result(done.0, done.1));
                if !done.0.success() {
                    Ok(
                        ProgressView::Done(
                            ExecutionView {
                                action_id: self.action_id,
                                success: false,
                                stopped_at: Some(self.current().step_index),
                                steps: results,
                            },
                        ),
                    )
                } else if results.len() < self.plan.len() {
                    Ok(ProgressView::Next(RunView { results, ..self }))
                } else {
                    Ok(
                        ProgressView::Done(
                            ExecutionView {
                                action_id: self.action_id,
                                success: true,
                                stopped_at: None,
                                steps: results,
                            },
                        ),
                    )
                }
            },
        }
    }
}

impl ApprovedAction {
    /// A quick action that is approved has at least one step.
    #[verifier::type_invariant]
    spec fn has_steps(self) -> bool {
        self.steps@.len() > 0
    }

    /// The statement that looks the host name of the server up.
    pub fn host_lookup(&self) -> (r: Statement)
        ensures
            r@ == query(GET_SERVER_HOST@).bind(ValueView::Integer(self@.server_id)),
            r@.fully_bound(),
    {
        proof {
            lemma_get_server_host_parameters();
        }
        Statement::new(GET_SERVER_HOST).bind_integer(self.server_id)
    }

    /// Goes on with the host name of the server, when there is such a server.
    pub fn located(self, host: Option<String>) -> (r: AppResult<QuickActionRun>)
        ensures
            result_view(r) == self@.located(opt_text(host)),
    {
        proof {
            use_type_invariant(&self);
            lemma_plan_is_not_empty(steps_view(self.steps@));
        }
        match host {
            None => Err(
                AppError::NotFound(
                    "服务器 ".to_owned().concat(write_i64(self.server_id).as_str()),
                ),
            ),
            Some(server_host) => {
                let plan = make_plan(&self.steps);
                let results: Vec<QuickActionStepResult> = Vec::new();
                assert(plan@.len() == plan@.map_values(|p: PlannedCommand| p@).len());
                assert(results@.map_values(|s: QuickActionStepResult| s@) =~= Seq::<
                    StepResultView,
                >::empty());
                Ok(
                    QuickActionRun {
                        action_id: self.action_id,
                        server_id: self.server_id,
                        server_host,
                        user_confirmed: self.user_confirmed,
                        plan,
                        results,
                    },
                )
            },
        }
    }
}

/// Every step runs its command.
proof fn lemma_plan_is_not_empty(steps: Seq<StepView>)
    requires
        steps.len() > 0,
    ensures
        plan(steps).len() > 0,
{
}

impl QuickActionRun {
    /// There is a command left to run.
    #[verifier::type_invariant]
    spec fn is_under_way(self) -> bool {
        self.results@.len() < self.plan@.len()
    }

    /// The server that the commands run on.
    pub fn server_id(&self) -> (r: i64)
        ensures
            r == self@.server_id,
    {
        self.server_id
    }

    /// The host name of the server.
    pub fn server_host(&self) -> (r: &str)
        ensures
            r@ == self@.server_host,
    {
        self.server_host.as_str()
    }

    /// The command to run now.
    pub fn command(&self) -> (r: &str)
        ensures
            r@ == self@.current().command,
    {
        proof {
            use_type_invariant(self);
        }
        self.plan[self.results.len()].command.as_str()
    }

    /// What is audited with the current command.
    pub fn context(&self) -> (r: AuditContext)
        ensures
            r@ == self@.context(),
    {
        proof {
            use_type_invariant(self);
        }
        let current = &self.plan[self.results.len()];
        assert(current@ == self@.current());
        let mut args = "{\"action_id\":".to_owned();
        args.append(write_json_string(self.action_id.as_str()).as_str());
        args.append(",\"step\":");
        args.append(write_u64(current.step_index as u64).as_str());
        args.append("}");
        let tool_name = if current.is_guard {
            "quick_action_guard"
        } else {
            "run_quick_action"
        };
        let approved_by = if self.user_confirmed {
            "user:quick_action"
        } else {
            "policy:always_approve"
        };
        AuditContext {
            source: "quick_action".to_owned(),
            session_id: None,
            tool_name: tool_name.to_owned(),
            command: Some(current.command.clone()),
            args: Some(args),
            approved_by: Some(approved_by.to_owned()),
            proposal_id: None,
        }
    }

    /// Starts the audited execution of the current command.
    pub fn begin(&self) -> (r: PendingExecution)
        ensures
            exists|now: Seq<char>|
                is_utc_timestamp(now) && r@ == #[trigger] started(
                    now,
                    self@.server_id,
                    self@.server_host,
                    self@.current().command,
                    self@.context(),
                ),
            r@.intent.fully_bound(),
    {
        let command = self.command();
        let ctx = self.context();
        let r = execute_and_audit(self.server_id, self.server_host.as_str(), command, &ctx);
        proof {
            let now = choose|now: Seq<char>|
                is_utc_timestamp(now) && r@ == #[trigger] started(
                    now,
                    self.server_id,
                    self.server_host@,
                    command@,
                    ctx@,
                );
            assert(r@ == started(
                now,
                self@.server_id,
                self@.server_host,
                self@.current().command,
                self@.context(),
            ));
        }
        r
    }

    /// Goes on with what executing the current command gave.
    pub fn executed(self, reply: AppResult<(CommandResult, i64)>) -> (r: AppResult<Progress>)
        ensures
            result_view(r) == self@.executed(result_view(reply)),
    {
        proof {
            use_type_invariant(&self);
        }
        let (done, audit_id) = match reply {
            Ok(done) => done,
            Err(e) => {
                return Err(e);
            },
        };
        let ghost before = self@;
        let success = done.success();
        let current = &self.plan[self.results.len()];
        assert(current@ == before.current());
        let step_index: usize = current.step_index;
        let kind = if current.is_guard {
            "guard"
        } else {
            "command"
        };
        let result = QuickActionStepResult {
            step_index,
            kind: kind.to_owned(),
            command: current.command.clone(),
            audit_id,
            exit_code: done.exit_code,
            success,
        };
        assert(result@ == before.current().result(done@, audit_id));
        let mut results = self.results;
        results.push(result);
        assert(results@.map_values(|s: QuickActionStepResult| s@) =~= before.results.push(
            before.current().result(done@, audit_id),
        ));
        if !success {
            return Ok(
                Progress::Done(
                    QuickActionExecutionResult {
                        action_id: self.action_id,
                        success: false,
                        stopped_at: Some(step_index),
                        steps: results,
                    },
                ),
            );
        }
        if results.len() < self.plan.len() {
            Ok(
                Progress::Next(
                    QuickActionRun {
                        action_id: self.action_id,
                        server_id: self.server_id,
                        server_host: self.server_host,
                        user_confirmed: self.user_confirmed,
                        plan: self.plan,
                        results,
                    },
                ),
            )
        } else {
            Ok(
                Progress::Done(
                    QuickActionExecutionResult {
                        action_id: self.action_id,
                        success: true,
                        stopped_at: None,
                        steps: results,
                    },
                ),
            )
        }
    }
}

} // verus!

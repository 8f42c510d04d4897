//! What holds of every run of a quick action.
use vstd::prelude::*;

use crate::audit::{insert_statement, pending_entry};
use crate::commands::quick_actions::{
    approver, command_of, guard_of, has_guard, plan, plan_upto, step_plan, ApprovedView,
    ExecutionView, PlannedView, PreviewedView, ProgressView, QuickActionExecutionResult,
    QuickActionStepResult, RequestView, RunView, StepResultView,
};
use crate::commands::steps::{checked_steps, law_checked_steps, StepView};
use crate::decimal::{decimal, signed_decimal};
use crate::error::{result_view, AppResult, ErrorView};
use crate::executor::{started, CommandResult, CommandView};
use crate::json::json_string;
use crate::models::QuickAction;
use crate::text::is_blank;

verus! {

/// What executing a command gave: its result and the id of its audit log entry, or an error.
pub type Reply = Result<(CommandView, i64), ErrorView>;

/// Whether a command was executed and exited with 0.
pub open spec fn succeeded(reply: Reply) -> bool {
    reply matches Ok(done) && done.0.success()
}

/// Where a run is after some replies. A run that is over takes no more of them.
pub open spec fn drive(run: RunView, replies: Seq<Reply>) -> Result<ProgressView, ErrorView>
    decreases replies.len(),
{
    if replies.len() == 0 {
        Ok(ProgressView::Next(run))
    } else {
        match run.executed(replies[0]) {
            Ok(ProgressView::Next(next)) => drive(next, replies.skip(1)),
            end => end,
        }
    }
}

/// What is reported of the first `n` commands of a plan.
pub open spec fn reported(plan: Seq<PlannedView>, replies: Seq<Reply>, n: int) -> Seq<
    StepResultView,
> {
    Seq::new(n as nat, |i: int| plan[i].result(replies[i]->Ok_0.0, replies[i]->Ok_0.1))
}

/// A run that has just started.
pub open spec fn fresh(run: RunView) -> bool {
    run.results.len() == 0 && run.plan.len() > 0
}

/// While commands succeed and others are left, a run takes one reply after the other.
proof fn lemma_run_goes_on(run: RunView, replies: Seq<Reply>, k: int)
    requires
        fresh(run),
        0 <= k < run.plan.len(),
        k <= replies.len(),
        forall|i: int| 0 <= i < k ==> succeeded(#[trigger] replies[i]),
    ensures
        drive(run, replies) == drive(
            RunView { results: reported(run.plan, replies, k), ..run },
            replies.skip(k),
        ),
    decreases k,
{
    if k == 0 {
        assert(replies.skip(0) =~= replies);
        assert(reported(run.plan, replies, 0) =~= run.results);
    } else {
        lemma_run_goes_on(run, replies, k - 1);
        let here = RunView { results: reported(run.plan, replies, k - 1), ..run };
        assert(replies.skip(k - 1)[0] == replies[k - 1]);
        assert(replies.skip(k - 1).skip(1) =~= replies.skip(k));
        assert(here.results.push(
            here.current().result(replies[k - 1]->Ok_0.0, replies[k - 1]->Ok_0.1),
        ) =~= reported(run.plan, replies, k));
    }
}

/// The first command that exits with anything but 0 ends the run: the run is reported as failed at
/// the step of that command, with the results up to and including it, and nothing after it is run.
pub proof fn law_run_stops_at_first_failure(run: RunView, replies: Seq<Reply>, k: int)
    requires
        fresh(run),
        0 <= k < run.plan.len(),
        k < replies.len(),
        forall|i: int| 0 <= i < k ==> succeeded(#[trigger] replies[i]),
        replies[k] is Ok,
        !succeeded(replies[k]),
    ensures
        drive(run, replies) == Ok::<ProgressView, ErrorView>(
            ProgressView::Done(
                ExecutionView {
                    action_id: run.action_id,
                    success: false,
                    stopped_at: Some(run.plan[k].step_index),
                    steps: reported(run.plan, replies, k + 1),
                },
            ),
        ),
{
    lemma_run_goes_on(run, replies, k);
    let here = RunView { results: reported(run.plan, replies, k), ..run };
    assert(replies.skip(k)[0] == replies[k]);
    assert(here.results.push(here.current().result(replies[k]->Ok_0.0, replies[k]->Ok_0.1))
        =~= reported(run.plan, replies, k + 1));
}

/// A command that could not be executed or recorded ends the run with its error.
pub proof fn law_run_ends_with_first_error(run: RunView, replies: Seq<Reply>, k: int, e: ErrorView)
    requires
        fresh(run),
        0 <= k < run.plan.len(),
        k < replies.len(),
        forall|i: int| 0 <= i < k ==> succeeded(#[trigger] replies[i]),
        replies[k] == Err::<(CommandView, i64), ErrorView>(e),
    ensures
        drive(run, replies) == Err::<ProgressView, ErrorView>(e),
{
    lemma_run_goes_on(run, replies, k);
    assert(replies.skip(k)[0] == replies[k]);
}

/// A run in which every command succeeds runs all of them, in the order of the plan, and is
/// reported as a success.
pub proof fn law_run_succeeds_when_every_command_does(run: RunView, replies: Seq<Reply>)
    requires
        fresh(run),
        replies.len() >= run.plan.len(),
        forall|i: int| 0 <= i < run.plan.len() ==> succeeded(#[trigger] replies[i]),
    ensures
        drive(run, replies) == Ok::<ProgressView, ErrorView>(
            ProgressView::Done(
                ExecutionView {
                    action_id: run.action_id,
                    success: true,
                    stopped_at: None,
                    steps: reported(run.plan, replies, run.plan.len() as int),
                },
            ),
        ),
{
    let k = run.plan.len() - 1;
    lemma_run_goes_on(run, replies, k);
    let here = RunView { results: reported(run.plan, replies, k), ..run };
    assert(replies.skip(k)[0] == replies[k]);
    assert(here.results.push(here.current().result(replies[k]->Ok_0.0, replies[k]->Ok_0.1))
        =~= reported(run.plan, replies, k + 1));
}

/// A run is never reported as a success unless each of its commands was executed and exited
/// with 0.
pub proof fn law_success_means_every_command_succeeded(run: RunView, replies: Seq<Reply>)
    requires
        fresh(run),
        drive(run, replies) matches Ok(ProgressView::Done(result)) && result.success,
    ensures
        replies.len() >= run.plan.len(),
        forall|i: int| 0 <= i < run.plan.len() ==> succeeded(#[trigger] replies[i]),
{
    let n = if replies.len() < run.plan.len() {
        replies.len() as int
    } else {
        run.plan.len() as int
    };
    let k = leading_successes(replies, n);
    lemma_leading_successes(replies, n);
    if k < n {
        match replies[k] {
            Ok(_) => {
                law_run_stops_at_first_failure(run, replies, k);
            },
            Err(e) => {
                law_run_ends_with_first_error(run, replies, k, e);
            },
        }
    } else if n < run.plan.len() {
        lemma_run_goes_on(run, replies, n);
        assert(replies.skip(n).len() == 0);
    }
}

/// How many of the first `n` replies come before the first that is no success.
spec fn leading_successes(replies: Seq<Reply>, n: int) -> int
    decreases n,
{
    if n <= 0 {
        0
    } else if leading_successes(replies, n - 1) == n - 1 && succeeded(replies[n - 1]) {
        n
    } else {
        leading_successes(replies, n - 1)
    }
}

proof fn lemma_leading_successes(replies: Seq<Reply>, n: int)
    requires
        0 <= n <= replies.len(),
    ensures
        0 <= leading_successes(replies, n) <= n,
        forall|i: int|
            0 <= i < leading_successes(replies, n) ==> succeeded(#[trigger] replies[i]),
        leading_successes(replies, n) < n ==> !succeeded(replies[leading_successes(replies, n)]),
    decreases n,
{
    if n > 0 {
        lemma_leading_successes(replies, n - 1);
    }
}

/// Each step runs its command, right after its guard when it has one. Whenever the command of a
/// guarded step is up, the guard was the last command before it.
pub proof fn law_guard_comes_right_before_command(steps: Seq<StepView>, i: int)
    requires
        0 <= i < steps.len(),
    ensures
        exists|p: int|
            0 <= p < plan(steps).len() && #[trigger] plan(steps)[p] == command_of(steps[i], i) && (
            has_guard(steps[i]) ==> p > 0 && plan(steps)[p - 1] == guard_of(steps[i], i)),
{
    lemma_plan_prefix(steps, i + 1, steps.len() as int);
    let before = plan_upto(steps, i);
    let upto = plan_upto(steps, i + 1);
    let p = upto.len() - 1;
    assert(upto =~= before + step_plan(steps[i], i));
    assert(upto[p] == command_of(steps[i], i));
    assert(plan(steps)[p] == upto[p]);
    if has_guard(steps[i]) {
        assert(upto[p - 1] == guard_of(steps[i], i));
        assert(plan(steps)[p - 1] == upto[p - 1]);
    }
}

/// What the first steps run comes first.
proof fn lemma_plan_prefix(steps: Seq<StepView>, a: int, b: int)
    requires
        0 <= a <= b <= steps.len(),
    ensures
        plan_upto(steps, a).is_prefix_of(plan_upto(steps, b)),
    decreases b,
{
    if a == b {
        assert(plan_upto(steps, a) =~= plan_upto(steps, b).subrange(
            0,
            plan_upto(steps, a).len() as int,
        ));
    } else {
        lemma_plan_prefix(steps, a, b - 1);
        let front = plan_upto(steps, a);
        assert(front =~= plan_upto(steps, b - 1).subrange(0, front.len() as int));
        assert(front =~= plan_upto(steps, b).subrange(0, front.len() as int));
    }
}

/// Nothing is run but the commands and the guards that are not blank, step by step in their order.
pub proof fn law_plan_holds_nothing_else(steps: Seq<StepView>, p: int)
    requires
        0 <= p < plan(steps).len(),
        steps.len() <= usize::MAX,
    ensures
        ({
            let entry = plan(steps)[p];
            let i = entry.step_index as int;
            &&& 0 <= i < steps.len()
            &&& entry == command_of(steps[i], i) || has_guard(steps[i]) && entry == guard_of(
                steps[i],
                i,
            )
        }),
        forall|q: int|
            0 <= q < p ==> (#[trigger] plan(steps)[q]).step_index <= plan(steps)[p].step_index,
{
    lemma_plan_entries(steps, steps.len() as int);
}

proof fn lemma_plan_entries(steps: Seq<StepView>, n: int)
    requires
        0 <= n <= steps.len(),
        steps.len() <= usize::MAX,
    ensures
        forall|p: int|
            #![trigger plan_upto(steps, n)[p]]
            0 <= p < plan_upto(steps, n).len() ==> {
                let entry = plan_upto(steps, n)[p];
                let i = entry.step_index as int;
                &&& 0 <= i < n
                &&& entry == command_of(steps[i], i) || has_guard(steps[i]) && entry == guard_of(
                    steps[i],
                    i,
                )
            },
        forall|p: int, q: int|
            0 <= q < p < plan_upto(steps, n).len() ==> (#[trigger] plan_upto(
                steps,
                n,
            )[q]).step_index <= (#[trigger] plan_upto(steps, n)[p]).step_index,
    decreases n,
{
    if n > 0 {
        lemma_plan_entries(steps, n - 1);
        let front = plan_upto(steps, n - 1);
        let here = step_plan(steps[n - 1], n - 1);
        let all = plan_upto(steps, n);
        assert(all == front + here);
        assert forall|p: int| 0 <= p < all.len() implies ({
            let entry = #[trigger] all[p];
            let i = entry.step_index as int;
            &&& 0 <= i < n
            &&& entry == command_of(steps[i], i) || has_guard(steps[i]) && entry == guard_of(
                steps[i],
                i,
            )
        }) by {
            if p < front.len() {
                assert(all[p] == front[p]);
            } else {
                assert(all[p] == here[p - front.len()]);
            }
        }
        assert forall|p: int, q: int| 0 <= q < p < all.len() implies (#[trigger] all[q]).step_index
            <= (#[trigger] all[p]).step_index by {
            if p < front.len() {
                assert(all[p] == front[p] && all[q] == front[q]);
            } else {
                assert(all[p] == here[p - front.len()]);
                if q < front.len() {
                    assert(all[q] == front[q]);
                } else {
                    assert(all[q] == here[q - front.len()]);
                }
            }
        }
    }
}

/// The command of a guarded step has its guard right before it.
proof fn lemma_guard_precedes(steps: Seq<StepView>, n: int, p: int)
    requires
        0 <= n <= steps.len() <= usize::MAX,
        0 <= p < plan_upto(steps, n).len(),
        !plan_upto(steps, n)[p].is_guard,
        has_guard(steps[plan_upto(steps, n)[p].step_index as int]),
    ensures
        p > 0,
        plan_upto(steps, n)[p - 1].is_guard,
        plan_upto(steps, n)[p - 1].step_index == plan_upto(steps, n)[p].step_index,
    decreases n,
{
    let front = plan_upto(steps, n - 1);
    let here = step_plan(steps[n - 1], n - 1);
    if p < front.len() {
        assert(plan_upto(steps, n)[p] == front[p]);
        lemma_guard_precedes(steps, n - 1, p);
    } else {
        assert(plan_upto(steps, n)[p] == here[p - front.len()]);
        assert(plan_upto(steps, n)[p - 1] == here[p - front.len() - 1]);
    }
}

/// A finished run reports the first commands of its plan, and all of them but the last succeeded.
proof fn lemma_finished_run(run: RunView, replies: Seq<Reply>, result: ExecutionView)
    requires
        fresh(run),
        drive(run, replies) == Ok::<ProgressView, ErrorView>(ProgressView::Done(result)),
    ensures
        result.steps.len() <= run.plan.len(),
        result.steps == reported(run.plan, replies, result.steps.len() as int),
        forall|i: int| 0 <= i < result.steps.len() - 1 ==> (#[trigger] result.steps[i]).success,
{
    let n = if replies.len() < run.plan.len() {
        replies.len() as int
    } else {
        run.plan.len() as int
    };
    let k = leading_successes(replies, n);
    lemma_leading_successes(replies, n);
    if k < n {
        match replies[k] {
            Ok(_) => {
                law_run_stops_at_first_failure(run, replies, k);
            },
            Err(e) => {
                law_run_ends_with_first_error(run, replies, k, e);
            },
        }
    } else if n < run.plan.len() {
        lemma_run_goes_on(run, replies, n);
        assert(replies.skip(n).len() == 0);
    } else {
        law_run_succeeds_when_every_command_does(run, replies);
    }
    assert forall|i: int| 0 <= i < result.steps.len() - 1 implies (
    #[trigger] result.steps[i]).success by {
        assert(succeeded(replies[i]));
    }
}

/// The command of a guarded step is run only when its guard was run right before it and succeeded.
pub proof fn law_guard_protects_its_command(
    steps: Seq<StepView>,
    run: RunView,
    replies: Seq<Reply>,
    result: ExecutionView,
    p: int,
)
    requires
        steps.len() <= usize::MAX,
        fresh(run),
        run.plan == plan(steps),
        drive(run, replies) == Ok::<ProgressView, ErrorView>(ProgressView::Done(result)),
        0 <= p < result.steps.len(),
        result.steps[p].kind == "command"@,
        has_guard(steps[result.steps[p].step_index as int]),
    ensures
        p > 0,
        result.steps[p - 1].kind == "guard"@,
        result.steps[p - 1].step_index == result.steps[p].step_index,
        result.steps[p - 1].success,
{
    lemma_finished_run(run, replies, result);
    reveal_strlit("command");
    reveal_strlit("guard");
    assert("command"@.len() == 7 && "guard"@.len() == 5);
    assert(result.steps[p] == run.plan[p].result(replies[p]->Ok_0.0, replies[p]->Ok_0.1));
    lemma_guard_precedes(steps, steps.len() as int, p);
    assert(result.steps[p - 1] == run.plan[p - 1].result(
        replies[p - 1]->Ok_0.0,
        replies[p - 1]->Ok_0.1,
    ));
}

/// Whenever a command is up, every command before it was run and succeeded. When it is the command
/// of a guarded step, the last of these was the guard of that step.
pub proof fn law_commands_follow_only_successes(
    steps: Seq<StepView>,
    run: RunView,
    replies: Seq<Reply>,
    next: RunView,
)
    requires
        steps.len() <= usize::MAX,
        fresh(run),
        run.plan == plan(steps),
        drive(run, replies) == Ok::<ProgressView, ErrorView>(ProgressView::Next(next)),
    ensures
        next == (RunView { results: reported(run.plan, replies, replies.len() as int), ..run }),
        replies.len() < run.plan.len(),
        forall|i: int| 0 <= i < replies.len() ==> succeeded(#[trigger] replies[i]),
        !next.current().is_guard && has_guard(steps[next.current().step_index as int]) ==> {
            let last = next.results.last();
            &&& next.results.len() > 0
            &&& last.kind == "guard"@
            &&& last.step_index == next.current().step_index
            &&& last.success
        },
{
    let n = if replies.len() < run.plan.len() {
        replies.len() as int
    } else {
        run.plan.len() as int
    };
    let k = leading_successes(replies, n);
    lemma_leading_successes(replies, n);
    if k < n {
        match replies[k] {
            Ok(_) => {
                law_run_stops_at_first_failure(run, replies, k);
            },
            Err(e) => {
                law_run_ends_with_first_error(run, replies, k, e);
            },
        }
    } else if n == run.plan.len() {
        law_run_succeeds_when_every_command_does(run, replies);
    }
    lemma_run_goes_on(run, replies, n);
    assert(replies.skip(n).len() == 0);
    if !next.current().is_guard && has_guard(steps[next.current().step_index as int]) {
        lemma_guard_precedes(steps, steps.len() as int, n);
        assert(succeeded(replies[n - 1]));
    }
}

/// An approved quick action starts with all of its plan ahead of it, and there is something in it.
pub proof fn law_approved_action_starts_fresh(
    previewed: PreviewedView,
    parsed: Result<Seq<StepView>, Seq<char>>,
    host: Seq<char>,
)
    ensures
        previewed.parsed(parsed) matches Ok(approved) ==> (approved.located(Some(host)) matches Ok(
            run,
        ) && fresh(run) && run.plan == plan(approved.steps)),
{
}

/// What the audit log registers for a command of a quick action is the command that is run.
pub proof fn law_run_records_what_it_runs(run: RunView, now: Seq<char>)
    ensures
        started(now, run.server_id, run.server_host, run.current().command, run.context()).intent
            == insert_statement(
            pending_entry(
                now,
                Some(run.server_id),
                Some(run.server_host),
                Some(run.current().command),
                run.context(),
            ),
        ),
{
}

/// A quick action that was changed after the user has seen it is refused.
pub proof fn law_changed_action_is_refused(request: RequestView, action: QuickAction)
    ensures
        request.loaded(Some(action)) is Ok <==> action.updated_at@ == request.expected_updated_at,
{
}

/// Without the confirmation of the user a quick action is approved only when its policy always
/// approves it and none of its steps asks to be confirmed. The commands of a run carry the name of
/// whoever approved them.
pub proof fn law_unconfirmed_runs_need_the_policy(
    previewed: PreviewedView,
    parsed: Result<Seq<StepView>, Seq<char>>,
    host: Option<Seq<char>>,
)
    ensures
        previewed.parsed(parsed) matches Ok(approved) ==> (!previewed.user_confirmed ==> {
            &&& previewed.approval == "always_approve"@
            &&& forall|i: int|
                0 <= i < approved.steps.len() ==> !(#[trigger] approved.steps[i]).confirm
        }),
        previewed.parsed(parsed) matches Ok(approved) ==> (approved.located(host) matches Ok(run)
            ==> run.context().approved_by == Some(approver(previewed.user_confirmed))),
{
}

/// The plan grows step by step: with one more step, it goes on with the guard of that step, when
/// the step has one that is not blank, and then with its command, whatever else the step holds and
/// whatever steps come before it.
pub proof fn law_plan_grows_step_by_step(steps: Seq<StepView>, step: StepView)
    requires
        steps.len() < usize::MAX,
    ensures
        plan(Seq::<StepView>::empty()).len() == 0,
        ({
            let index = steps.len() as usize;
            let command = PlannedView { step_index: index, is_guard: false, command: step.value };
            &&& step.guard matches Some(g) ==> (!is_blank(g) ==> plan(steps.push(step)) == plan(
                steps,
            ).push(PlannedView { step_index: index, is_guard: true, command: g }).push(command))
            &&& step.guard matches Some(g) ==> (is_blank(g) ==> plan(steps.push(step)) == plan(
                steps,
            ).push(command))
            &&& step.guard is None ==> plan(steps.push(step)) == plan(steps).push(command)
        }),
{
    let more = steps.push(step);
    lemma_plan_upto_prefix(more, steps, steps.len() as int);
    assert(more[steps.len() as int] == step);
    let index = steps.len() as usize;
    let command = PlannedView { step_index: index, is_guard: false, command: step.value };
    assert(command_of(step, steps.len() as int) == command);
    if let Some(g) = step.guard {
        let guard = PlannedView { step_index: index, is_guard: true, command: g };
        assert(guard_of(step, steps.len() as int) == guard);
        assert(plan(steps) + seq![guard, command] =~= plan(steps).push(guard).push(command));
    }
    assert(plan(steps) + seq![command] =~= plan(steps).push(command));
}

/// What the first steps run depends on these steps alone.
proof fn lemma_plan_upto_prefix(a: Seq<StepView>, b: Seq<StepView>, n: int)
    requires
        0 <= n <= a.len(),
        n <= b.len(),
        forall|i: int| 0 <= i < n ==> a[i] == b[i],
    ensures
        plan_upto(a, n) == plan_upto(b, n),
    decreases n,
{
    if n > 0 {
        lemma_plan_upto_prefix(a, b, n - 1);
    }
}

/// A guard that is not blank is run right before the command of its step, and nothing stands
/// between them, whatever else the step holds and whatever the other steps are.
pub proof fn law_guard_is_run_right_before_its_command(steps: Seq<StepView>, i: int, g: Seq<char>)
    requires
        steps.len() <= usize::MAX,
        0 <= i < steps.len(),
        steps[i].guard == Some(g),
        !is_blank(g),
    ensures
        exists|p: int|
            0 < p < plan(steps).len() && #[trigger] plan(steps)[p] == (PlannedView {
                step_index: i as usize,
                is_guard: false,
                command: steps[i].value,
            }) && plan(steps)[p - 1] == (PlannedView {
                step_index: i as usize,
                is_guard: true,
                command: g,
            }),
{
    lemma_plan_prefix(steps, i + 1, steps.len() as int);
    let before = plan_upto(steps, i);
    let upto = plan_upto(steps, i + 1);
    let command = PlannedView { step_index: i as usize, is_guard: false, command: steps[i].value };
    let guard = PlannedView { step_index: i as usize, is_guard: true, command: g };
    assert(upto =~= before.push(guard).push(command));
    let p = upto.len() - 1;
    assert(upto[p] == command && upto[p - 1] == guard);
    assert(plan(steps)[p] == upto[p]);
    assert(plan(steps)[p - 1] == upto[p - 1]);
}

/// When the command of a step is up whose guard is not blank, that guard was run last, and it
/// exited with 0.
pub proof fn law_guard_has_passed_when_its_command_is_up(
    steps: Seq<StepView>,
    run: RunView,
    replies: Seq<Reply>,
    next: RunView,
    i: int,
    g: Seq<char>,
)
    requires
        steps.len() <= usize::MAX,
        0 <= i < steps.len(),
        steps[i].guard == Some(g),
        !is_blank(g),
        run.results.len() == 0,
        run.plan == plan(steps),
        drive(run, replies) == Ok::<ProgressView, ErrorView>(ProgressView::Next(next)),
        next.plan[next.results.len() as int].step_index == i,
        !next.plan[next.results.len() as int].is_guard,
    ensures
        next.results.len() > 0,
        next.results.last().kind == "guard"@,
        next.results.last().command == g,
        next.results.last().step_index == i,
        next.results.last().exit_code == 0,
        next.results.last().success,
{
    law_guard_is_run_right_before_its_command(steps, i, g);
    law_commands_follow_only_successes(steps, run, replies, next);
    let k = replies.len() as int;
    lemma_guard_precedes(steps, steps.len() as int, k);
    law_plan_holds_nothing_else(steps, k - 1);
    assert(succeeded(replies[k - 1]));
}

/// What is reported of a command: its step, whether it was a guard, the command itself, its audit
/// log entry, its exit code, and success exactly when that is 0.
pub proof fn law_reports_say_what_was_run(p: PlannedView, done: CommandResult, audit_id: i64)
    ensures
        ({
            let r = p.result(done@, audit_id);
            &&& r.step_index == p.step_index
            &&& p.is_guard ==> r.kind == "guard"@
            &&& !p.is_guard ==> r.kind == "command"@
            &&& r.command == p.command
            &&& r.audit_id == audit_id
            &&& r.exit_code == done.exit_code
            &&& r.success <==> done.exit_code == 0
        }),
{
}

/// The command that is up is the one in the plan that follows those with a result. It is audited as
/// part of a quick action, under the tool that its sort calls for, with the command, the action and
/// the step, and with whoever approved it.
pub proof fn law_each_command_is_audited_as_itself(run: RunView)
    requires
        run.results.len() < run.plan.len(),
    ensures
        ({
            let up = run.plan[run.results.len() as int];
            let ctx = run.context();
            &&& run.current() == up
            &&& ctx.source == "quick_action"@
            &&& ctx.session_id is None
            &&& up.is_guard ==> ctx.tool_name == "quick_action_guard"@
            &&& !up.is_guard ==> ctx.tool_name == "run_quick_action"@
            &&& ctx.command == Some(up.command)
            &&& ctx.args == Some(
                "{\"action_id\":"@ + json_string(run.action_id) + ",\"step\":"@ + decimal(
                    up.step_index as nat,
                ) + "}"@,
            )
            &&& run.user_confirmed ==> ctx.approved_by == Some("user:quick_action"@)
            &&& !run.user_confirmed ==> ctx.approved_by == Some("policy:always_approve"@)
            &&& ctx.proposal_id is None
        }),
{
}

/// How a run goes on with what came of its command. An error ends it as that error. Otherwise the
/// report of the command is added to those before it; an exit code other than 0 stops the run at the
/// step of the command, and after the last command the run is a success.
pub proof fn law_run_goes_on_only_after_success(
    run: RunView,
    reply: AppResult<(CommandResult, i64)>,
)
    requires
        run.results.len() < run.plan.len(),
    ensures
        reply matches Err(e) ==> run.executed(result_view(reply)) == Err::<ProgressView, ErrorView>(
            e@,
        ),
        reply matches Ok(done) ==> {
            let up = run.plan[run.results.len() as int];
            let results = run.results.push(
                StepResultView {
                    step_index: up.step_index,
                    kind: if up.is_guard { "guard"@ } else { "command"@ },
                    command: up.command,
                    audit_id: done.1,
                    exit_code: done.0.exit_code,
                    success: done.0.exit_code == 0,
                },
            );
            &&& done.0.exit_code != 0 ==> run.executed(result_view(reply)) == Ok::<
                ProgressView,
                ErrorView,
            >(
                ProgressView::Done(
                    ExecutionView {
                        action_id: run.action_id,
                        success: false,
                        stopped_at: Some(up.step_index),
                        steps: results,
                    },
                ),
            )
            &&& done.0.exit_code == 0 && run.results.len() + 1 < run.plan.len() ==> run.executed(
                result_view(reply),
            ) == Ok::<ProgressView, ErrorView>(
                ProgressView::Next(
                    RunView {
                        action_id: run.action_id,
                        server_id: run.server_id,
                        server_host: run.server_host,
                        user_confirmed: run.user_confirmed,
                        plan: run.plan,
                        results,
                    },
                ),
            )
            &&& done.0.exit_code == 0 && run.results.len() + 1 == run.plan.len() ==> run.executed(
                result_view(reply),
            ) == Ok::<ProgressView, ErrorView>(
                ProgressView::Done(
                    ExecutionView {
                        action_id: run.action_id,
                        success: true,
                        stopped_at: None,
                        steps: results,
                    },
                ),
            )
        },
{
}

/// What follows looking a quick action up: without one, the refusal names it; with one that was
/// changed since the preview, it is refused as changed; otherwise its steps and its policy are taken
/// as they are stored, and the rest as it was asked for.
pub proof fn law_only_the_previewed_version_is_taken(request: RequestView, action: QuickAction)
    ensures
        request.loaded(None) == Err::<PreviewedView, ErrorView>(
            ErrorView::NotFound("快捷指令 "@ + request.action_id),
        ),
        action.updated_at@ != request.expected_updated_at ==> request.loaded(Some(action)) == Err::<
            PreviewedView,
            ErrorView,
        >(ErrorView::InvalidInput("快捷指令在预览后已被修改，请重新检查并批准"@)),
        action.updated_at@ == request.expected_updated_at ==> request.loaded(Some(action)) == Ok::<
            PreviewedView,
            ErrorView,
        >(
            PreviewedView {
                action_id: request.action_id,
                server_id: request.server_id,
                user_confirmed: request.user_confirmed,
                approval: action.approval@,
                steps: action.steps@,
            },
        ),
{
}

/// Sound steps are approved, as they are, exactly when the user has confirmed them, or the policy
/// always approves and no step asks to be confirmed. Otherwise a confirmation is asked for.
pub proof fn law_confirmation_is_asked_for_when_called_for(
    previewed: PreviewedView,
    steps: Seq<StepView>,
)
    requires
        steps.len() > 0,
        forall|i: int|
            0 <= i < steps.len() ==> (#[trigger] steps[i]).step_type == "command"@ && !is_blank(
                steps[i].value,
            ),
    ensures
        ({
            let confirmed = previewed.user_confirmed || (previewed.approval == "always_approve"@
                && forall|i: int| 0 <= i < steps.len() ==> !(#[trigger] steps[i]).confirm);
            &&& confirmed ==> previewed.parsed(Ok(steps)) == Ok::<ApprovedView, ErrorView>(
                ApprovedView {
                    action_id: previewed.action_id,
                    server_id: previewed.server_id,
                    user_confirmed: previewed.user_confirmed,
                    steps,
                },
            )
            &&& !confirmed ==> previewed.parsed(Ok(steps)) == Err::<ApprovedView, ErrorView>(
                ErrorView::InvalidInput("该快捷指令需要人工确认"@),
            )
        }),
{
    law_checked_steps(steps);
}

/// Steps that cannot be read, or that are not sound, are refused before any confirmation is asked
/// for.
pub proof fn law_unsound_steps_are_refused_first(
    previewed: PreviewedView,
    parsed: Result<Seq<StepView>, Seq<char>>,
)
    ensures
        checked_steps(parsed) matches Err(e) ==> previewed.parsed(parsed) == Err::<
            ApprovedView,
            ErrorView,
        >(e),
{
}

/// A run starts on the server that was asked for, under its host name, with the plan of the approved
/// steps ahead of it. A server that does not exist is named in the refusal.
pub proof fn law_run_starts_on_the_server_asked_for(approved: ApprovedView, host: Seq<char>)
    ensures
        approved.located(None) == Err::<RunView, ErrorView>(
            ErrorView::NotFound("服务器 "@ + signed_decimal(approved.server_id as int)),
        ),
        approved.located(Some(host)) == Ok::<RunView, ErrorView>(
            RunView {
                action_id: approved.action_id,
                server_id: approved.server_id,
                server_host: host,
                user_confirmed: approved.user_confirmed,
                plan: plan(approved.steps),
                results: seq![],
            },
        ),
{
}

/// Reports are seen as what they hold, field by field.
pub proof fn law_reports_are_seen_as_they_are(
    step: QuickActionStepResult,
    result: QuickActionExecutionResult,
    i: int,
)
    requires
        0 <= i < result.steps@.len(),
    ensures
        step@ == (StepResultView {
            step_index: step.step_index,
            kind: step.kind@,
            command: step.command@,
            audit_id: step.audit_id,
            exit_code: step.exit_code,
            success: step.success,
        }),
        result@.action_id == result.action_id@,
        result@.success == result.success,
        result@.stopped_at == result.stopped_at,
        result@.steps.len() == result.steps@.len(),
        result@.steps[i] == result.steps@[i]@,
{
}

} // verus!

//! The steps of quick actions and what they have to satisfy.
use vstd::prelude::*;
use vstd::string::*;

use crate::decimal::{decimal, write_u64};
use crate::error::{AppError, AppResult, ErrorView};
use crate::text::{
    blank, is_blank, law_blank_text_is_white_space, opt_text, same_text, white_space,
};

verus! {

/// A step of a quick action, as it is stored.
#[derive(Debug)]
pub struct QuickActionCommandStep {
    pub step_type: String,
    pub value: String,
    /// A command that has to succeed before the step may run.
    pub guard: Option<String>,
    /// Whether the step calls for the confirmation of the user.
    pub confirm: bool,
}

/// The mathematical content of a `QuickActionCommandStep`.
pub struct StepView {
    pub step_type: Seq<char>,
    pub value: Seq<char>,
    pub guard: Option<Seq<char>>,
    pub confirm: bool,
}

impl View for QuickActionCommandStep {
    type V = StepView;

    open spec fn view(&self) -> StepView {
        StepView {
            step_type: self.step_type@,
            value: self.value@,
            guard: opt_text(self.guard),
            confirm: self.confirm,
        }
    }
}

/// The mathematical content of some steps.
pub open spec fn steps_view(steps: Seq<QuickActionCommandStep>) -> Seq<StepView> {
    steps.map_values(|s: QuickActionCommandStep| s@)
}

/// What is wrong with the step at index `i`, if anything: it is no command, or its command is
/// blank. Users count steps from 1.
pub open spec fn step_fault(step: StepView, i: int) -> Option<ErrorView> {
    if step.step_type != "command"@ {
        Some(
            ErrorView::InvalidInput(
                "快捷指令第 "@ + decimal((i + 1) as nat) + " 步类型 "@ + step.step_type
                    + " 尚不支持"@,
            ),
        )
    } else if is_blank(step.value) {
        Some(
            ErrorView::InvalidInput(
                "快捷指令第 "@ + decimal((i + 1) as nat) + " 步命令为空"@,
            ),
        )
    } else {
        None
    }
}

/// The first fault of the steps from index `i` on.
pub open spec fn first_fault(steps: Seq<StepView>, i: int) -> Option<ErrorView>
    decreases steps.len() - i,
{
    if i >= steps.len() {
        None
    } else {
        match step_fault(steps[i], i) {
            Some(e) => Some(e),
            None => first_fault(steps, i + 1),
        }
    }
}

/// The steps of a quick action, from what reading them as JSON gave: the steps, or what is wrong
/// with the text.
pub open spec fn checked_steps(parsed: Result<Seq<StepView>, Seq<char>>) -> Result<
    Seq<StepView>,
    ErrorView,
> {
    match parsed {
        Err(why) => Err(ErrorView::InvalidInput("快捷指令步骤不是合法 JSON: "@ + why)),
        Ok(steps) => if steps.len() == 0 {
            Err(ErrorView::InvalidInput("快捷指令没有可执行步骤"@))
        } else {
            match first_fault(steps, 0) {
                Some(e) => Err(e),
                None => Ok(steps),
            }
        },
    }
}

/// The mathematical content of what reading steps gave.
pub open spec fn parsed_view(parsed: Result<Vec<QuickActionCommandStep>, String>) -> Result<
    Seq<StepView>,
    Seq<char>,
> {
    match parsed {
        Ok(steps) => Ok(steps_view(steps@)),
        Err(why) => Err(why@),
    }
}

/// The mathematical content of steps or an error.
pub open spec fn steps_result(r: AppResult<Vec<QuickActionCommandStep>>) -> Result<
    Seq<StepView>,
    ErrorView,
> {
    match r {
        Ok(steps) => Ok(steps_view(steps@)),
        Err(e) => Err(e@),
    }
}

/// Checks the steps of a quick action: there is at least one, and each is a command that is not
/// blank.
pub fn parse_quick_action_steps(parsed: Result<Vec<QuickActionCommandStep>, String>) -> (r:
    AppResult<Vec<QuickActionCommandStep>>)
    ensures
        steps_result(r) == checked_steps(parsed_view(parsed)),
{
    let steps = match parsed {
        Ok(steps) => steps,
        Err(why) => {
            return Err(
                AppError::InvalidInput("快捷指令步骤不是合法 JSON: ".to_owned().concat(why.as_str())),
            );
        },
    };
    if steps.len() == 0 {
        return Err(AppError::InvalidInput("快捷指令没有可执行步骤".to_owned()));
    }
    let ghost all = steps_view(steps@);
    let mut i: usize = 0;
    while i < steps.len()
        invariant
            i <= steps@.len(),
            all == steps_view(steps@),
            all.len() > 0,
            parsed_view(parsed) == Ok::<Seq<StepView>, Seq<char>>(all),
            first_fault(all, 0) == first_fault(all, i as int),
        decreases steps@.len() - i,
    {
        let step = &steps[i];
        assert(all[i as int] == step@);
        if !same_text(step.step_type.as_str(), "command") {
            let mut text = "快捷指令第 ".to_owned();
            text.append(write_u64(i as u64 + 1).as_str());
            text.append(" 步类型 ");
            text.append(step.step_type.as_str());
            text.append(" 尚不支持");
            return Err(AppError::InvalidInput(text));
        }
        if blank(step.value.as_str()) {
            let mut text = "快捷指令第 ".to_owned();
            text.append(write_u64(i as u64 + 1).as_str());
            text.append(" 步命令为空");
            return Err(AppError::InvalidInput(text));
        }
        i += 1;
    }
    Ok(steps)
}

/// Steps that pass the check are all commands that are not blank, and there is at least one.
/// Steps that do not are refused with the fault of the first step that has one.
pub proof fn law_checked_steps(steps: Seq<StepView>)
    ensures
        checked_steps(Ok(steps)) is Ok <==> steps.len() > 0 && forall|i: int|
            0 <= i < steps.len() ==> (#[trigger] steps[i]).step_type == "command"@ && !is_blank(
                steps[i].value,
            ),
        checked_steps(Ok(steps)) matches Ok(kept) ==> kept == steps,
        forall|k: int|
            0 <= k < steps.len() && #[trigger] step_fault(steps[k], k) is Some && (forall|i: int|
                0 <= i < k ==> #[trigger] step_fault(steps[i], i) is None) ==> checked_steps(
                Ok(steps),
            ) == Err::<Seq<StepView>, ErrorView>(step_fault(steps[k], k)->0),
{
    lemma_first_fault(steps, 0);
    assert forall|i: int| 0 <= i < steps.len() implies (step_fault(steps[i], i) is None <==> ((
    #[trigger] steps[i]).step_type == "command"@ && !is_blank(steps[i].value))) by {}
}

proof fn lemma_first_fault(steps: Seq<StepView>, from: int)
    requires
        0 <= from <= steps.len(),
    ensures
        first_fault(steps, from) is None <==> forall|i: int|
            from <= i < steps.len() ==> #[trigger] step_fault(steps[i], i) is None,
        forall|k: int|
            from <= k < steps.len() && #[trigger] step_fault(steps[k], k) is Some && (forall|i: int|
                from <= i < k ==> #[trigger] step_fault(steps[i], i) is None) ==> first_fault(
                steps,
                from,
            ) == step_fault(steps[k], k),
    decreases steps.len() - from,
{
    if from < steps.len() {
        lemma_first_fault(steps, from + 1);
    }
}

/// A step is seen as what it holds, field by field, and steps one by one.
pub proof fn law_steps_are_seen_as_they_are(steps: Seq<QuickActionCommandStep>, i: int)
    requires
        0 <= i < steps.len(),
    ensures
        steps_view(steps).len() == steps.len(),
        ({
            let seen = steps_view(steps)[i];
            &&& seen.step_type == steps[i].step_type@
            &&& seen.value == steps[i].value@
            &&& seen.guard is Some <==> steps[i].guard is Some
            &&& steps[i].guard matches Some(g) ==> seen.guard == Some(g@)
            &&& seen.confirm == steps[i].confirm
        }),
{
}

/// Steps are accepted as they are when there is at least one and each is of the type `command` with
/// a command that is not blank, whatever its guard and its other fields.
pub proof fn law_sound_steps_are_accepted(steps: Seq<StepView>)
    requires
        steps.len() > 0,
        forall|i: int|
            0 <= i < steps.len() ==> (#[trigger] steps[i]).step_type == "command"@ && exists|j: int|
                0 <= j < steps[i].value.len() && !white_space(#[trigger] steps[i].value[j]),
    ensures
        checked_steps(Ok(steps)) == Ok::<Seq<StepView>, ErrorView>(steps),
{
    assert forall|i: int| 0 <= i < steps.len() implies (#[trigger] steps[i]).step_type
        == "command"@ && !is_blank(steps[i].value) by {
        let j = choose|j: int|
            0 <= j < steps[i].value.len() && !white_space(#[trigger] steps[i].value[j]);
        law_blank_text_is_white_space(
            steps[i].value.take(j),
            steps[i].value[j],
            steps[i].value.skip(j + 1),
        );
        assert(steps[i].value =~= steps[i].value.take(j) + seq![steps[i].value[j]]
            + steps[i].value.skip(j + 1));
    }
    law_checked_steps(steps);
}

/// The first step that is no command, or whose command is blank, is refused by its number, counted
/// from 1, and a step that is no command by its type. What comes after it makes no difference.
pub proof fn law_first_faulty_step_is_named(steps: Seq<StepView>, k: int)
    requires
        0 <= k < steps.len(),
        forall|i: int|
            0 <= i < k ==> (#[trigger] steps[i]).step_type == "command"@ && !is_blank(
                steps[i].value,
            ),
    ensures
        steps[k].step_type != "command"@ ==> checked_steps(Ok(steps)) == Err::<
            Seq<StepView>,
            ErrorView,
        >(
            ErrorView::InvalidInput(
                "快捷指令第 "@ + decimal((k + 1) as nat) + " 步类型 "@ + steps[k].step_type
                    + " 尚不支持"@,
            ),
        ),
        steps[k].step_type == "command"@ && is_blank(steps[k].value) ==> checked_steps(Ok(steps))
            == Err::<Seq<StepView>, ErrorView>(
            ErrorView::InvalidInput(
                "快捷指令第 "@ + decimal((k + 1) as nat) + " 步命令为空"@,
            ),
        ),
{
    law_checked_steps(steps);
    assert forall|i: int| 0 <= i < k implies #[trigger] step_fault(steps[i], i) is None by {}
    if step_fault(steps[k], k) is Some {
        assert(checked_steps(Ok(steps)) == Err::<Seq<StepView>, ErrorView>(
            step_fault(steps[k], k)->0,
        ));
    }
}

/// Text that cannot be read as steps, and steps of which there is none, are refused.
pub proof fn law_missing_steps_are_refused(why: Seq<char>)
    ensures
        checked_steps(Err(why)) == Err::<Seq<StepView>, ErrorView>(
            ErrorView::InvalidInput("快捷指令步骤不是合法 JSON: "@ + why),
        ),
        checked_steps(Ok(Seq::<StepView>::empty())) == Err::<Seq<StepView>, ErrorView>(
            ErrorView::InvalidInput("快捷指令没有可执行步骤"@),
        ),
{
}

/// What reading and checking steps gave is seen as it is.
pub proof fn law_read_steps_are_seen_as_they_are(
    steps: Vec<QuickActionCommandStep>,
    why: String,
    e: AppError,
)
    ensures
        parsed_view(Ok(steps)) == Ok::<Seq<StepView>, Seq<char>>(steps_view(steps@)),
        parsed_view(Err(why)) == Err::<Seq<StepView>, Seq<char>>(why@),
        steps_result(Ok(steps)) == Ok::<Seq<StepView>, ErrorView>(steps_view(steps@)),
        steps_result(Err(e)) == Err::<Seq<StepView>, ErrorView>(e@),
{
}

} // verus!

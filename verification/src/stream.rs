//! What a run yields, item by item.
use vstd::prelude::*;

use crate::call::PendingCall;
use crate::failure::{
    libsy_error_view, libsy_outcome, stop_async_iteration_view, ExceptionKind, PyFailure,
};
use crate::json::{decision_value, json_fields, json_flag, shows_decision, Decision};

verus! {

/// One item of a run, as the algorithm yields it.
#[derive(Debug)]
pub enum Step<C, M, I, R> {
    /// The host must serve the model call before the algorithm can continue.
    CallModel(PendingCall<C, M, I>),
    /// A routing decision.
    Decision(Decision<I>),
    /// The terminal response, whole or still streaming.
    Done(R),
}

/// What the host does to give one item to Python.
#[derive(Debug)]
pub enum StepAction<C, M, I, R> {
    /// Show the call, with the object that stands for its decision.
    ShowCall { call: PendingCall<C, M, I>, decision: serde_json::Value },
    /// Show the object that stands for a decision.
    ShowDecision { decision: serde_json::Value },
    /// Collect the response into a whole one, then show that.
    Collect { response: R },
}

/// The action shows exactly the step.
pub open spec fn shows_step<C, M, I, R>(
    action: StepAction<C, M, I, R>,
    step: Step<C, M, I, R>,
) -> bool {
    match step {
        Step::CallModel(call) => {
            &&& action matches StepAction::ShowCall { call: shown, decision }
            &&& shown == call
            &&& shows_decision(decision, call.decision)
        },
        Step::Decision(made) => {
            &&& action matches StepAction::ShowDecision { decision }
            &&& shows_decision(decision, made)
        },
        Step::Done(response) => action == StepAction::<C, M, I, R>::Collect { response },
    }
}

/// A step is shown as what it is. A call goes out whole; the object beside it, and the one that
/// stands for a decision, hold the JSON form of the model id, the reasoning and the flag of that
/// very decision, each under its own name; a response is collected as it came.
pub proof fn law_step_is_shown_as_it_is<C, M, I, R>(
    action: StepAction<C, M, I, R>,
    step: Step<C, M, I, R>,
)
    requires
        shows_step(action, step),
    ensures
        step is CallModel <==> action is ShowCall,
        step is Decision <==> action is ShowDecision,
        step is Done <==> action is Collect,
        step matches Step::CallModel(call) ==> {
            let fields = json_fields(action->ShowCall_decision);
            &&& action->call.handle == call.handle
            &&& action->call.algorithm == call.algorithm
            &&& action->call.metadata == call.metadata
            &&& action->call.decision == call.decision
            &&& fields.dom() =~= set!["selected_model_id"@, "reasoning"@, "is_answer_call"@]
            &&& fields["selected_model_id"@] == call.decision.selected_model_json
            &&& fields["reasoning"@] == call.decision.reasoning
            &&& json_flag(fields["is_answer_call"@]) == Some(call.decision.is_answer_call)
        },
        step matches Step::Decision(made) ==> {
            let fields = json_fields(action->ShowDecision_decision);
            &&& fields.dom() =~= set!["selected_model_id"@, "reasoning"@, "is_answer_call"@]
            &&& fields["selected_model_id"@] == made.selected_model_json
            &&& fields["reasoning"@] == made.reasoning
            &&& json_flag(fields["is_answer_call"@]) == Some(made.is_answer_call)
        },
        step matches Step::Done(response) ==> action->response == response,
{
}

/// A decision looks the same to Python whether it comes alone or with its call.
pub proof fn law_decision_looks_the_same<C, M, I, R>(
    with_call: StepAction<C, M, I, R>,
    call: PendingCall<C, M, I>,
    alone: StepAction<C, M, I, R>,
)
    requires
        shows_step(with_call, Step::CallModel(call)),
        shows_step(alone, Step::Decision(call.decision)),
    ensures
        ({
            let a = json_fields(with_call->ShowCall_decision);
            let b = json_fields(alone->ShowDecision_decision);
            &&& a.dom() == b.dom()
            &&& a["selected_model_id"@] == b["selected_model_id"@]
            &&& a["reasoning"@] == b["reasoning"@]
            &&& json_flag(a["is_answer_call"@]) == json_flag(b["is_answer_call"@])
        }),
{
}

/// What the host does to give the step to Python.
pub fn step_to_python<C, M, I, R>(step: Step<C, M, I, R>) -> (action: StepAction<C, M, I, R>)
    ensures
        shows_step(action, step),
        step matches Step::CallModel(call) ==> {
            &&& action matches StepAction::ShowCall { call: shown, decision }
            &&& shown == call
            &&& json_fields(decision)["selected_model_id"@] == call.decision.selected_model_json
            &&& json_fields(decision)["reasoning"@] == call.decision.reasoning
            &&& json_flag(json_fields(decision)["is_answer_call"@]) == Some(
                call.decision.is_answer_call,
            )
        },
        step matches Step::Decision(made) ==> {
            &&& action matches StepAction::ShowDecision { decision }
            &&& json_fields(decision)["selected_model_id"@] == made.selected_model_json
            &&& json_fields(decision)["reasoning"@] == made.reasoning
            &&& json_flag(json_fields(decision)["is_answer_call"@]) == Some(made.is_answer_call)
        },
        step matches Step::Done(whole) ==> action matches StepAction::Collect { response }
            && response == whole,
{
    match step {
        Step::CallModel(call) => {
            let decision = decision_value(&call.decision);
            StepAction::ShowCall { call, decision }
        },
        Step::Decision(made) => StepAction::ShowDecision { decision: decision_value(&made) },
        Step::Done(response) => StepAction::Collect { response },
    }
}

/// What comes of the next item of a run.
pub open spec fn item_outcome<C, M, I, R>(
    item: Option<Result<Step<C, M, I, R>, String>>,
    outcome: Result<StepAction<C, M, I, R>, PyFailure>,
) -> bool {
    match item {
        Some(Ok(step)) => outcome matches Ok(action) && shows_step(action, step),
        Some(Err(message)) => outcome matches Err(failure) && failure@ == libsy_error_view(
            message@,
        ),
        None => outcome matches Err(failure) && failure@ == stop_async_iteration_view(),
    }
}

/// The iteration goes on exactly with the steps, ends exactly where there is no item, and tells an
/// error from the end: an error is a `LibsyError` with the error's own text.
pub proof fn law_items_are_told_apart<C, M, I, R>(
    item: Option<Result<Step<C, M, I, R>, String>>,
    outcome: Result<StepAction<C, M, I, R>, PyFailure>,
)
    requires
        item_outcome(item, outcome),
    ensures
        outcome is Ok <==> item is Some && item->0 is Ok,
        outcome is Err ==> (item is None <==> outcome->Err_0.kind
            == ExceptionKind::StopAsyncIteration),
        item matches Some(Err(message)) ==> outcome->Err_0.kind == ExceptionKind::LibsyError
            && outcome->Err_0.message@ == message@,
        item is None ==> outcome->Err_0.message@.len() == 0,
        item matches Some(Ok(Step::Decision(made))) ==> {
            let fields = json_fields(outcome->Ok_0->ShowDecision_decision);
            &&& fields["selected_model_id"@] == made.selected_model_json
            &&& fields["reasoning"@] == made.reasoning
            &&& json_flag(fields["is_answer_call"@]) == Some(made.is_answer_call)
        },
        item matches Some(Ok(Step::CallModel(call))) ==> outcome->Ok_0->call == call,
        item matches Some(Ok(Step::Done(response))) ==> outcome->Ok_0->response == response,
{
}

/// What the host does with the next item of a run: an action for a step, a `LibsyError` for an
/// error, the end of the iteration where there is no item.
pub fn next_step<C, M, I, R>(item: Option<Result<Step<C, M, I, R>, String>>) -> (outcome: Result<
    StepAction<C, M, I, R>,
    PyFailure,
>)
    ensures
        match item {
            Some(Ok(step)) => outcome matches Ok(action) && shows_step(action, step),
            Some(Err(message)) => outcome matches Err(failure) && failure@
                == libsy_error_view(message@),
            None => outcome matches Err(failure) && failure@
                == stop_async_iteration_view(),
        },
        item_outcome(item, outcome),
        item matches Some(Ok(Step::CallModel(call))) ==> {
            &&& outcome matches Ok(StepAction::ShowCall { call: shown, decision })
            &&& shown == call
            &&& json_fields(decision)["selected_model_id"@] == call.decision.selected_model_json
            &&& json_fields(decision)["reasoning"@] == call.decision.reasoning
            &&& json_flag(json_fields(decision)["is_answer_call"@]) == Some(
                call.decision.is_answer_call,
            )
        },
        item matches Some(Ok(Step::Decision(made))) ==> {
            &&& outcome matches Ok(StepAction::ShowDecision { decision })
            &&& json_fields(decision)["selected_model_id"@] == made.selected_model_json
            &&& json_fields(decision)["reasoning"@] == made.reasoning
            &&& json_flag(json_fields(decision)["is_answer_call"@]) == Some(made.is_answer_call)
        },
        item matches Some(Ok(Step::Done(whole))) ==> outcome matches Ok(
            StepAction::Collect { response },
        ) && response == whole,
        item matches Some(Err(message)) ==> outcome matches Err(failure) && failure.kind
            == ExceptionKind::LibsyError && failure.message@ == message@,
        item is None ==> (outcome matches Err(failure) && failure.kind
            == ExceptionKind::StopAsyncIteration && failure.message@.len() == 0),
{
    match item {
        Some(result) => match libsy_outcome(result) {
            Ok(step) => Ok(step_to_python(step)),
            Err(failure) => Err(failure),
        },
        None => Err(PyFailure::stop_async_iteration()),
    }
}

} // verus!

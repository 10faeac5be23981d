//! One model call that an algorithm waits for, and the ways in which the host completes it.
use vstd::prelude::*;

use crate::failure::{
    libsy_error_view, type_error_view, ExceptionKind, PyFailure, PyFailureView,
};
use crate::json::{decision_value, json_fields, json_flag, shows_decision, Decision};

verus! {

/// A model call as an algorithm yields it.
///
/// `handle` is what the call is completed through; nothing here looks into it. `metadata` is the
/// request's correlation metadata.
#[derive(Debug)]
pub struct PendingCall<C, M, I> {
    pub handle: C,
    pub algorithm: String,
    pub metadata: Option<M>,
    pub decision: Decision<I>,
}

/// A whole response, with the metadata of the request that it answers.
#[derive(Debug)]
pub struct AggregateResponse<A, M> {
    pub aggregate: A,
    pub metadata: Option<M>,
}

/// A client failure, with the model that was to serve the call.
#[derive(Debug)]
pub struct ClientCallError<I, S> {
    pub target: I,
    pub source: S,
}

/// Why an operation raised: an error of the host, passed on as it is, or a failure of the
/// bindings.
#[derive(Debug)]
pub enum Raised<E> {
    Host(E),
    Bindings(PyFailure),
}

/// The failure of every operation that comes after the call was completed.
pub open spec fn completed_failure() -> PyFailureView {
    libsy_error_view("model call has already been completed"@)
}

/// The failure of an operation that was given something else than an exception.
pub open spec fn not_an_exception_failure() -> PyFailureView {
    type_error_view("error must derive from BaseException"@)
}

/// Each of the two failures has its class and its text.
pub proof fn law_call_failures()
    ensures
        completed_failure().kind == ExceptionKind::LibsyError,
        completed_failure().message == "model call has already been completed"@,
        not_an_exception_failure().kind == ExceptionKind::TypeError,
        not_an_exception_failure().message == "error must derive from BaseException"@,
{
}

/// The operations that hand a call out or complete it, and whether their argument is one that
/// they accept.
pub enum CallOp {
    Take,
    TakeParts,
    Respond { converted: bool },
    Fail { is_base_exception: bool },
}

/// The operation has no argument, or one that it accepts.
pub open spec fn accepts(op: CallOp) -> bool {
    match op {
        CallOp::Take => true,
        CallOp::TakeParts => true,
        CallOp::Respond { converted } => converted,
        CallOp::Fail { is_base_exception } => is_base_exception,
    }
}

/// One operation on a call that is pending `before` and `after`: it hands the call out exactly if
/// the call was pending and the operation accepts its argument, and the call is no longer pending
/// exactly if it was handed out, then or earlier.
pub open spec fn call_step(before: bool, op: CallOp, handed_out: bool, after: bool) -> bool {
    &&& handed_out == (before && accepts(op))
    &&& after == (before && !accepts(op))
}

/// Taking is always accepted; completing is where there is a response, or an exception, to
/// complete with. An accepted operation leaves nothing pending, and a refused one changes nothing.
pub proof fn law_one_operation(before: bool, op: CallOp, handed_out: bool, after: bool)
    requires
        call_step(before, op, handed_out, after),
    ensures
        op is Take || op is TakeParts ==> handed_out == before && !after,
        op matches CallOp::Respond { converted } ==> if converted {
            handed_out == before && !after
        } else {
            !handed_out && after == before
        },
        op matches CallOp::Fail { is_base_exception } ==> if is_base_exception {
            handed_out == before && !after
        } else {
            !handed_out && after == before
        },
{
}

/// A call is completed at most once: of a sequence of operations exactly the first that accepts
/// its argument hands the call out, if it was pending at the start, and it stays pending as long
/// as none does.
pub proof fn law_completed_at_most_once(
    states: Seq<bool>,
    ops: Seq<CallOp>,
    handed_out: Seq<bool>,
    at: int,
)
    requires
        states.len() == ops.len() + 1,
        handed_out.len() == ops.len(),
        forall|i: int|
            0 <= i < ops.len() ==> call_step(
                states[i],
                #[trigger] ops[i],
                handed_out[i],
                states[i + 1],
            ),
        0 <= at <= ops.len(),
    ensures
        states[at] <==> states[0] && forall|i: int|
            0 <= i < at ==> !accepts(#[trigger] ops[i]),
        at < ops.len() ==> (handed_out[at] <==> states[0] && accepts(ops[at]) && forall|i: int|
            0 <= i < at ==> !accepts(#[trigger] ops[i])),
        forall|i: int|
            0 <= i < at && at < ops.len() && #[trigger] handed_out[i] ==> !handed_out[at],
    decreases at,
{
    if at > 0 {
        law_completed_at_most_once(states, ops, handed_out, at - 1);
        assert(call_step(states[at - 1], ops[at - 1], handed_out[at - 1], states[at]));
    }
    if at < ops.len() {
        assert(call_step(states[at], ops[at], handed_out[at], states[at + 1]));
        assert forall|i: int| 0 <= i < at && #[trigger] handed_out[i] implies !handed_out[at] by {
            assert(call_step(states[i], ops[i], handed_out[i], states[i + 1]));
            assert(accepts(ops[i]));
        }
    }
}

/// The request and the object that stands for the decision are what `split` made of the handle.
pub open spec fn taken_apart<C, I, R, E, F>(
    split: F,
    handle: C,
    request: R,
    value: serde_json::Value,
) -> bool where F: FnOnce(C) -> Result<(R, Decision<I>), E> {
    exists|decision: Decision<I>|
        call_ensures(split, (handle,), Ok((request, decision))) && #[trigger] shows_decision(
            value,
            decision,
        )
}

/// Whatever is taken apart is shown as it is: the request comes of `split`, and with it came a
/// decision whose model id in JSON form, reasoning and flag the object holds, each under its own
/// name, and nothing else.
pub proof fn law_parts_are_the_split_ones<C, I, R, E, F>(
    split: F,
    handle: C,
    request: R,
    value: serde_json::Value,
) where F: FnOnce(C) -> Result<(R, Decision<I>), E>
    requires
        taken_apart(split, handle, request, value),
    ensures
        exists|decision: Decision<I>|
            {
                &&& call_ensures(split, (handle,), Ok((request, decision)))
                &&& json_fields(value).dom() =~= set![
                    "selected_model_id"@,
                    "reasoning"@,
                    "is_answer_call"@,
                ]
                &&& json_fields(value)["selected_model_id"@] == decision.selected_model_json
                &&& json_fields(value)["reasoning"@] == #[trigger] decision.reasoning
                &&& json_flag(json_fields(value)["is_answer_call"@]) == Some(
                    decision.is_answer_call,
                )
            },
{
    let decision = choose|decision: Decision<I>|
        call_ensures(split, (handle,), Ok((request, decision))) && #[trigger] shows_decision(
            value,
            decision,
        );
    assert(json_fields(value)["reasoning"@] == decision.reasoning);
}

/// What taking gives, where `before` is the call that was pending.
pub open spec fn took<C, M, I>(
    before: Option<PendingCall<C, M, I>>,
    taken: Result<PendingCall<C, M, I>, PyFailure>,
) -> bool {
    match before {
        Some(call) => taken == Ok::<PendingCall<C, M, I>, PyFailure>(call),
        None => taken matches Err(failure) && failure@ == completed_failure(),
    }
}

/// Taking gives the pending call whole, and fails exactly where there is none.
pub proof fn law_taken_is_the_pending_call<C, M, I>(
    before: Option<PendingCall<C, M, I>>,
    taken: Result<PendingCall<C, M, I>, PyFailure>,
)
    requires
        took(before, taken),
    ensures
        taken is Ok <==> before is Some,
        taken matches Ok(call) ==> {
            &&& call.handle == before->0.handle
            &&& call.algorithm == before->0.algorithm
            &&& call.metadata == before->0.metadata
            &&& call.decision == before->0.decision
        },
        taken matches Err(failure) ==> failure.kind == ExceptionKind::LibsyError
            && failure.message@ == "model call has already been completed"@,
{
}

/// What taking apart gives, where `before` is the call that was pending.
pub open spec fn took_parts<C, M, I, R, E, F>(
    before: Option<PendingCall<C, M, I>>,
    split: F,
    taken: Result<(R, serde_json::Value), Raised<E>>,
) -> bool where F: FnOnce(C) -> Result<(R, Decision<I>), E> {
    match (before, taken) {
        (Some(call), Ok((request, value))) => taken_apart(split, call.handle, request, value),
        (Some(call), Err(Raised::Host(error))) => call_ensures(split, (call.handle,), Err(error)),
        (None, Err(Raised::Bindings(failure))) => failure@ == completed_failure(),
        _ => false,
    }
}

/// Taking apart fails on its own account exactly where nothing is pending; otherwise what comes is
/// what `split` gives for the pending call's handle, its error included.
pub proof fn law_parts_come_of_the_pending_call<C, M, I, R, E, F>(
    before: Option<PendingCall<C, M, I>>,
    split: F,
    taken: Result<(R, serde_json::Value), Raised<E>>,
) where F: FnOnce(C) -> Result<(R, Decision<I>), E>
    requires
        took_parts(before, split, taken),
    ensures
        before is None <==> taken matches Err(Raised::Bindings(_)),
        taken matches Err(Raised::Bindings(failure)) ==> failure.kind == ExceptionKind::LibsyError
            && failure.message@ == "model call has already been completed"@,
        taken matches Err(Raised::Host(error)) ==> call_ensures(
            split,
            (before->0.handle,),
            Err(error),
        ),
        taken matches Ok((request, value)) ==> exists|decision: Decision<I>|
            {
                &&& call_ensures(split, (before->0.handle,), Ok((request, decision)))
                &&& json_fields(value)["selected_model_id"@] == decision.selected_model_json
                &&& json_fields(value)["reasoning"@] == #[trigger] decision.reasoning
                &&& json_flag(json_fields(value)["is_answer_call"@]) == Some(
                    decision.is_answer_call,
                )
            },
{
    if let Ok((request, value)) = taken {
        law_parts_are_the_split_ones(split, before->0.handle, request, value);
    }
}

/// What responding gives and leaves, where `before` is the call that was pending.
pub open spec fn responded<C, M, I, A, E>(
    before: Option<PendingCall<C, M, I>>,
    response: Result<A, E>,
    outcome: Result<(C, AggregateResponse<A, M>), Raised<E>>,
    after: Option<PendingCall<C, M, I>>,
) -> bool {
    match response {
        Ok(aggregate) => {
            &&& after is None
            &&& match before {
                Some(call) => {
                    &&& outcome matches Ok((handle, reply))
                    &&& handle == call.handle
                    &&& reply.aggregate == aggregate
                    &&& reply.metadata == call.metadata
                },
                None => outcome matches Err(Raised::Bindings(failure)) && failure@
                    == completed_failure(),
            }
        },
        Err(error) => {
            &&& outcome matches Err(Raised::Host(raised)) && raised == error
            &&& after == before
        },
    }
}

/// A response goes out once, as it was given, through the pending call's own handle and with its
/// own metadata. An error of the conversion is passed on and costs nothing: what was pending still
/// is.
pub proof fn law_response_goes_to_the_pending_call<C, M, I, A, E>(
    before: Option<PendingCall<C, M, I>>,
    response: Result<A, E>,
    outcome: Result<(C, AggregateResponse<A, M>), Raised<E>>,
    after: Option<PendingCall<C, M, I>>,
)
    requires
        responded(before, response, outcome, after),
    ensures
        outcome is Ok <==> response is Ok && before is Some,
        outcome matches Ok((handle, reply)) ==> {
            &&& handle == before->0.handle
            &&& reply.aggregate == response->Ok_0
            &&& reply.metadata == before->0.metadata
        },
        response is Ok ==> after is None,
        response matches Err(error) ==> after == before && outcome->Err_0 == Raised::Host(error),
        outcome matches Err(Raised::Bindings(failure)) ==> {
            &&& failure.kind == ExceptionKind::LibsyError
            &&& failure.message@ == "model call has already been completed"@
        },
{
}

/// What failing gives and leaves, where `before` is the call that was pending.
pub open spec fn failed<C, M, I, S>(
    before: Option<PendingCall<C, M, I>>,
    error: S,
    is_base_exception: bool,
    outcome: Result<(C, ClientCallError<I, S>), PyFailure>,
    after: Option<PendingCall<C, M, I>>,
) -> bool {
    if is_base_exception {
        &&& after is None
        &&& match before {
            Some(call) => {
                &&& outcome matches Ok((handle, reply))
                &&& handle == call.handle
                &&& reply.target == call.decision.selected_model_id
                &&& reply.source == error
            },
            None => outcome matches Err(failure) && failure@ == completed_failure(),
        }
    } else {
        &&& outcome matches Err(failure) && failure@ == not_an_exception_failure()
        &&& after == before
    }
}

/// A client failure goes out once, with the exception as it was given and the model that was
/// chosen for the pending call, through that call's own handle. What is no exception is refused
/// and costs nothing: what was pending still is.
pub proof fn law_failure_goes_to_the_pending_call<C, M, I, S>(
    before: Option<PendingCall<C, M, I>>,
    error: S,
    is_base_exception: bool,
    outcome: Result<(C, ClientCallError<I, S>), PyFailure>,
    after: Option<PendingCall<C, M, I>>,
)
    requires
        failed(before, error, is_base_exception, outcome, after),
    ensures
        outcome is Ok <==> is_base_exception && before is Some,
        outcome matches Ok((handle, reply)) ==> {
            &&& handle == before->0.handle
            &&& reply.target == before->0.decision.selected_model_id
            &&& reply.source == error
        },
        is_base_exception ==> after is None,
        !is_base_exception ==> after == before && outcome->Err_0.kind == ExceptionKind::TypeError
            && outcome->Err_0.message@ == "error must derive from BaseException"@,
        is_base_exception && outcome is Err ==> outcome->Err_0.kind == ExceptionKind::LibsyError
            && outcome->Err_0.message@ == "model call has already been completed"@,
{
}

/// After a response went out, neither another response, nor a failure, nor a taker gets the call.
pub proof fn law_nothing_after_a_response<C, M, I, A, E, S>(
    before: Option<PendingCall<C, M, I>>,
    response: Result<A, E>,
    sent: Result<(C, AggregateResponse<A, M>), Raised<E>>,
    after: Option<PendingCall<C, M, I>>,
    again: Result<A, E>,
    second: Result<(C, AggregateResponse<A, M>), Raised<E>>,
    error: S,
    is_base_exception: bool,
    refused: Result<(C, ClientCallError<I, S>), PyFailure>,
    last: Option<PendingCall<C, M, I>>,
    taken: Result<PendingCall<C, M, I>, PyFailure>,
)
    requires
        responded(before, response, sent, after),
        sent is Ok,
        responded(after, again, second, last),
        failed(after, error, is_base_exception, refused, last),
        took(after, taken),
    ensures
        second is Err,
        refused is Err,
        taken is Err,
        last is None,
{
}

/// After a failure went out, neither another failure, nor a response, nor a taker gets the call.
pub proof fn law_nothing_after_a_failure<C, M, I, A, E, S>(
    before: Option<PendingCall<C, M, I>>,
    error: S,
    is_base_exception: bool,
    sent: Result<(C, ClientCallError<I, S>), PyFailure>,
    after: Option<PendingCall<C, M, I>>,
    response: Result<A, E>,
    second: Result<(C, AggregateResponse<A, M>), Raised<E>>,
    refused: Result<(C, ClientCallError<I, S>), PyFailure>,
    last: Option<PendingCall<C, M, I>>,
    taken: Result<PendingCall<C, M, I>, PyFailure>,
)
    requires
        failed(before, error, is_base_exception, sent, after),
        sent is Ok,
        responded(after, response, second, last),
        failed(after, error, is_base_exception, refused, last),
        took(after, taken),
    ensures
        second is Err,
        refused is Err,
        taken is Err,
        last is None,
{
}

/// One model call as Python holds it.
///
/// `request` and `decision` are what Python sees of the call, taken when it was made.
#[derive(Debug)]
pub struct ModelCall<C, M, I, P> {
    inner: Option<PendingCall<C, M, I>>,
    algorithm: String,
    request: P,
    decision: P,
}

impl<C, M, I, P> ModelCall<C, M, I, P> {
    /// The call, as long as nothing has completed it.
    pub closed spec fn pending(self) -> Option<PendingCall<C, M, I>> {
        self.inner
    }

    /// The name of the algorithm that produced the call.
    pub closed spec fn algorithm_name(self) -> String {
        self.algorithm
    }

    /// What Python sees of the request.
    pub closed spec fn request_object(self) -> P {
        self.request
    }

    /// What Python sees of the decision.
    pub closed spec fn decision_object(self) -> P {
        self.decision
    }

    /// A call that is still pending comes from the algorithm that is shown for it.
    pub open spec fn well_formed(self) -> bool {
        self.pending() matches Some(call) ==> call.algorithm == self.algorithm_name()
    }

    /// Everything but the pending call is as in `other`.
    pub open spec fn shows_the_same_as(self, other: Self) -> bool {
        &&& self.algorithm_name() == other.algorithm_name()
        &&& self.request_object() == other.request_object()
        &&& self.decision_object() == other.decision_object()
    }

    /// The call is pending, and this is what Python sees of it.
    pub open spec fn holds(self, call: PendingCall<C, M, I>, request: P, decision: P) -> bool {
        &&& self.pending() == Some(call)
        &&& self.algorithm_name() == call.algorithm
        &&& self.request_object() == request
        &&& self.decision_object() == decision
    }

    /// A pending call, with what Python is to see of its request and of its decision.
    pub fn new(call: PendingCall<C, M, I>, request: P, decision: P) -> (held: Self)
        ensures
            held.well_formed(),
            held.pending() == Some(call),
            held.algorithm_name() == call.algorithm,
            held.request_object() == request,
            held.decision_object() == decision,
            held.holds(call, request, decision),
    {
        ModelCall { algorithm: call.algorithm.clone(), inner: Some(call), request, decision }
    }

    /// The name of the algorithm that produced the call.
    pub fn algorithm(&self) -> (name: &str)
        ensures
            name@ == self.algorithm_name()@,
    {
        self.algorithm.as_str()
    }

    /// What Python sees of the request.
    pub fn request(&self) -> (object: &P)
        ensures
            *object == self.request_object(),
    {
        &self.request
    }

    /// What Python sees of the decision.
    pub fn decision(&self) -> (object: &P)
        ensures
            *object == self.decision_object(),
    {
        &self.decision
    }

    /// Takes the pending call out; fails where it was taken before.
    pub fn take(&mut self) -> (taken: Result<PendingCall<C, M, I>, PyFailure>)
        ensures
            match old(self).pending() {
                Some(call) => taken == Ok::<PendingCall<C, M, I>, PyFailure>(call),
                None => taken matches Err(failure) && failure@ == completed_failure(),
            },
            took(old(self).pending(), taken),
            taken matches Err(failure) ==> failure.kind == ExceptionKind::LibsyError
                && failure.message@ == "model call has already been completed"@,
            call_step(
                old(self).pending() is Some,
                CallOp::Take,
                taken is Ok,
                final(self).pending() is Some,
            ),
            final(self).pending() is None,
            final(self).shows_the_same_as(*old(self)),
            final(self).well_formed(),
    {
        match self.inner.take() {
            Some(call) => Ok(call),
            None => Err(
                PyFailure::libsy_error("model call has already been completed".to_owned()),
            ),
        }
    }

    /// Takes the call without serving it: `split` takes the call apart, and Python gets the
    /// request and the object that stands for the decision.
    ///
    /// The call is gone even where `split` fails.
    pub fn take_parts<R, E, F>(&mut self, split: F) -> (taken: Result<
        (R, serde_json::Value),
        Raised<E>,
    >) where F: FnOnce(C) -> Result<(R, Decision<I>), E>
        requires
            old(self).pending() matches Some(call) ==> split.requires((call.handle,)),
        ensures
            match (old(self).pending(), taken) {
                (Some(call), Ok((request, value))) => taken_apart(
                    split,
                    call.handle,
                    request,
                    value,
                ),
                (Some(call), Err(Raised::Host(error))) => call_ensures(
                    split,
                    (call.handle,),
                    Err(error),
                ),
                (None, Err(Raised::Bindings(failure))) => failure@ == completed_failure(),
                _ => false,
            },
            took_parts(old(self).pending(), split, taken),
            taken matches Ok((request, value)) ==> exists|decision: Decision<I>|
                {
                    &&& call_ensures(
                        split,
                        (old(self).pending()->0.handle,),
                        Ok((request, decision)),
                    )
                    &&& json_fields(value)["selected_model_id"@] == decision.selected_model_json
                    &&& json_fields(value)["reasoning"@] == #[trigger] decision.reasoning
                    &&& json_flag(json_fields(value)["is_answer_call"@]) == Some(
                        decision.is_answer_call,
                    )
                },
            taken matches Err(Raised::Bindings(failure)) ==> failure.kind
                == ExceptionKind::LibsyError && failure.message@
                == "model call has already been completed"@,
            final(self).pending() is None,
            call_step(
                old(self).pending() is Some,
                CallOp::TakeParts,
                !(taken matches Err(Raised::Bindings(_))),
                final(self).pending() is Some,
            ),
            final(self).shows_the_same_as(*old(self)),
            final(self).well_formed(),
    {
        let call = match self.take() {
            Ok(call) => call,
            Err(failure) => {
                return Err(Raised::Bindings(failure));
            },
        };
        let ghost handle = call.handle;
        match split(call.handle) {
            Ok((request, decision)) => {
                let value = decision_value(&decision);
                assert(call_ensures(split, (handle,), Ok((request, decision))));
                assert(taken_apart(split, handle, request, value));
                Ok((request, value))
            },
            Err(error) => Err(Raised::Host(error)),
        }
    }

    /// Completes the call with a response: what to send, and what to send it through.
    ///
    /// A response that could not be converted leaves the call as it was.
    pub fn respond<A, E>(&mut self, response: Result<A, E>) -> (outcome: Result<
        (C, AggregateResponse<A, M>),
        Raised<E>,
    >)
        ensures
            match response {
                Ok(aggregate) => {
                    &&& final(self).pending() is None
                    &&& final(self).well_formed()
                    &&& match old(self).pending() {
                        Some(call) => {
                            &&& outcome matches Ok((handle, reply))
                            &&& handle == call.handle
                            &&& reply.aggregate == aggregate
                            &&& reply.metadata == call.metadata
                        },
                        None => outcome matches Err(Raised::Bindings(failure)) && failure@
                            == completed_failure(),
                    }
                },
                Err(error) => {
                    &&& outcome matches Err(Raised::Host(raised)) && raised == error
                    &&& *final(self) == *old(self)
                },
            },
            responded(old(self).pending(), response, outcome, final(self).pending()),
            outcome matches Err(Raised::Bindings(failure)) ==> failure.kind
                == ExceptionKind::LibsyError && failure.message@
                == "model call has already been completed"@,
            call_step(
                old(self).pending() is Some,
                (CallOp::Respond { converted: response is Ok }),
                outcome is Ok,
                final(self).pending() is Some,
            ),
            final(self).shows_the_same_as(*old(self)),
    {
        let aggregate = match response {
            Ok(aggregate) => aggregate,
            Err(error) => {
                return Err(Raised::Host(error));
            },
        };
        match self.take() {
            Ok(call) => Ok(
                (call.handle, AggregateResponse { aggregate, metadata: call.metadata }),
            ),
            Err(failure) => Err(Raised::Bindings(failure)),
        }
    }

    /// Completes the call with a client failure: what to send, and what to send it through.
    ///
    /// Something that is no exception leaves the call as it was.
    pub fn fail<S>(&mut self, error: S, is_base_exception: bool) -> (outcome: Result<
        (C, ClientCallError<I, S>),
        PyFailure,
    >)
        ensures
            if is_base_exception {
                &&& final(self).pending() is None
                &&& final(self).well_formed()
                &&& match old(self).pending() {
                    Some(call) => {
                        &&& outcome matches Ok((handle, reply))
                        &&& handle == call.handle
                        &&& reply.target == call.decision.selected_model_id
                        &&& reply.source == error
                    },
                    None => outcome matches Err(failure) && failure@ == completed_failure(),
                }
            } else {
                &&& outcome matches Err(failure) && failure@ == not_an_exception_failure()
                &&& *final(self) == *old(self)
            },
            failed(
                old(self).pending(),
                error,
                is_base_exception,
                outcome,
                final(self).pending(),
            ),
            outcome matches Err(failure) ==> if is_base_exception {
                failure.kind == ExceptionKind::LibsyError && failure.message@
                    == "model call has already been completed"@
            } else {
                failure.kind == ExceptionKind::TypeError && failure.message@
                    == "error must derive from BaseException"@
            },
            call_step(
                old(self).pending() is Some,
                (CallOp::Fail { is_base_exception }),
                outcome is Ok,
                final(self).pending() is Some,
            ),
            final(self).shows_the_same_as(*old(self)),
    {
        if !is_base_exception {
            return Err(PyFailure::type_error("error must derive from BaseException".to_owned()));
        }
        match self.take() {
            Ok(call) => {
                let target = call.decision.selected_model_id;
                Ok((call.handle, ClientCallError { target, source: error }))
            },
            Err(failure) => Err(failure),
        }
    }
}

/// What Python sees of a call is that call's: its algorithm's name, and the request and the
/// decision that were given for it, each in its own place.
pub proof fn law_held_call_shows_its_own<C, M, I, P>(
    held: ModelCall<C, M, I, P>,
    call: PendingCall<C, M, I>,
    request: P,
    decision: P,
)
    requires
        held.holds(call, request, decision),
    ensures
        held.pending() == Some(call),
        held.algorithm_name()@ == call.algorithm@,
        held.request_object() == request,
        held.decision_object() == decision,
        held.well_formed(),
{
}

/// No operation changes what Python sees of a call: it looks the same before and after.
pub proof fn law_looks_stay<C, M, I, P>(
    before: ModelCall<C, M, I, P>,
    after: ModelCall<C, M, I, P>,
)
    requires
        after.shows_the_same_as(before),
    ensures
        after.algorithm_name() == before.algorithm_name(),
        after.request_object() == before.request_object(),
        after.decision_object() == before.decision_object(),
{
}

} // verus!

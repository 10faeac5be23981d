//! Failures that the bindings hand to Python, as plain values.
use vstd::prelude::*;

verus! {

/// The Python exception class that a failure is raised as.
#[derive(Clone, Copy, Debug, PartialEq, Eq, Structural)]
pub enum ExceptionKind {
    ValueError,
    TypeError,
    LibsyError,
    StopAsyncIteration,
}

/// One failure: the exception class and the text it carries.
#[derive(Debug)]
pub struct PyFailure {
    pub kind: ExceptionKind,
    pub message: String,
}

/// What a [`PyFailure`] says, with its text as characters.
pub struct PyFailureView {
    pub kind: ExceptionKind,
    pub message: Seq<char>,
}

impl View for PyFailure {
    type V = PyFailureView;

    open spec fn view(&self) -> PyFailureView {
        PyFailureView { kind: self.kind, message: self.message@ }
    }
}

/// A `ValueError` with the given text.
pub open spec fn value_error_view(message: Seq<char>) -> PyFailureView {
    PyFailureView { kind: ExceptionKind::ValueError, message }
}

/// A `TypeError` with the given text.
pub open spec fn type_error_view(message: Seq<char>) -> PyFailureView {
    PyFailureView { kind: ExceptionKind::TypeError, message }
}

/// A `LibsyError` with the given text.
pub open spec fn libsy_error_view(message: Seq<char>) -> PyFailureView {
    PyFailureView { kind: ExceptionKind::LibsyError, message }
}

/// The end of an asynchronous iteration, which carries no text.
pub open spec fn stop_async_iteration_view() -> PyFailureView {
    PyFailureView { kind: ExceptionKind::StopAsyncIteration, message: Seq::empty() }
}

impl PyFailure {
    /// A `ValueError` with the given text.
    pub fn value_error(message: String) -> (failure: PyFailure)
        ensures
            failure@ == value_error_view(message@),
            failure.kind == ExceptionKind::ValueError,
            failure.message == message,
    {
        PyFailure { kind: ExceptionKind::ValueError, message }
    }

    /// A `TypeError` with the given text.
    pub fn type_error(message: String) -> (failure: PyFailure)
        ensures
            failure@ == type_error_view(message@),
            failure.kind == ExceptionKind::TypeError,
            failure.message == message,
    {
        PyFailure { kind: ExceptionKind::TypeError, message }
    }

    /// A `LibsyError` with the given text.
    pub fn libsy_error(message: String) -> (failure: PyFailure)
        ensures
            failure@ == libsy_error_view(message@),
            failure.kind == ExceptionKind::LibsyError,
            failure.message == message,
    {
        PyFailure { kind: ExceptionKind::LibsyError, message }
    }

    /// The end of an asynchronous iteration.
    pub fn stop_async_iteration() -> (failure: PyFailure)
        ensures
            failure@ == stop_async_iteration_view(),
            failure.kind == ExceptionKind::StopAsyncIteration,
            failure.message@.len() == 0,
    {
        PyFailure { kind: ExceptionKind::StopAsyncIteration, message: String::new() }
    }
}

/// A failure says its class and its whole text, and no more: each view has its own class and
/// carries the text as it is, and failures say the same exactly if they agree in both.
pub proof fn law_failures_say_class_and_text(message: Seq<char>, a: PyFailure, b: PyFailure)
    ensures
        value_error_view(message).kind == ExceptionKind::ValueError,
        value_error_view(message).message == message,
        type_error_view(message).kind == ExceptionKind::TypeError,
        type_error_view(message).message == message,
        libsy_error_view(message).kind == ExceptionKind::LibsyError,
        libsy_error_view(message).message == message,
        stop_async_iteration_view().kind == ExceptionKind::StopAsyncIteration,
        stop_async_iteration_view().message.len() == 0,
        a@ == b@ <==> a.kind == b.kind && a.message@ == b.message@,
{
}

/// The outcome is the result's value, or a failure of the given class with its error text.
pub open spec fn passed_on<T>(
    result: Result<T, String>,
    kind: ExceptionKind,
    outcome: Result<T, PyFailure>,
) -> bool {
    match result {
        Ok(value) => outcome == Ok::<T, PyFailure>(value),
        Err(message) => outcome matches Err(failure) && failure@ == (PyFailureView {
            kind,
            message: message@,
        }),
    }
}

/// Nothing of a result is lost or made up on the way to Python: values stay as they are, errors
/// keep their text, and no error becomes a value or a value an error.
pub proof fn law_results_are_passed_on<T>(
    result: Result<T, String>,
    kind: ExceptionKind,
    outcome: Result<T, PyFailure>,
)
    requires
        passed_on(result, kind, outcome),
    ensures
        result is Ok <==> outcome is Ok,
        result is Ok ==> outcome->Ok_0 == result->Ok_0,
        result is Err ==> outcome->Err_0.kind == kind,
        result is Err ==> outcome->Err_0.message@ == result->Err_0@,
{
}

/// What Python gets of a result of the algorithm library: its value, or its error text as a
/// `LibsyError`.
pub fn libsy_outcome<T>(result: Result<T, String>) -> (outcome: Result<T, PyFailure>)
    ensures
        match result {
            Ok(value) => outcome == Ok::<T, PyFailure>(value),
            Err(message) => outcome matches Err(failure) && failure@ == libsy_error_view(message@),
        },
        passed_on(result, ExceptionKind::LibsyError, outcome),
{
    match result {
        Ok(value) => Ok(value),
        Err(message) => Err(PyFailure::libsy_error(message)),
    }
}

/// What Python gets of a constructor's result: its value, or its error text as a `ValueError`.
pub fn value_outcome<T>(result: Result<T, String>) -> (outcome: Result<T, PyFailure>)
    ensures
        match result {
            Ok(value) => outcome == Ok::<T, PyFailure>(value),
            Err(message) => outcome matches Err(failure) && failure@ == value_error_view(message@),
        },
        passed_on(result, ExceptionKind::ValueError, outcome),
{
    match result {
        Ok(value) => Ok(value),
        Err(message) => Err(PyFailure::value_error(message)),
    }
}

} // verus!

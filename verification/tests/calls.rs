use std::collections::HashMap;

use serde_json::Value;
use switchyard_py::{
    libsy_outcome, next_step, prepare_run, run_request, start_run, step_to_python, Decision, ExceptionKind, ModelCall, ModelId,
    PendingCall, PyFailure, Raised, Request, Step, StepAction,
};

fn decision(reasoning: Option<&str>) -> Decision<ModelId> {
    Decision {
        selected_model_id: ModelId::new("strong".to_string()),
        selected_model_json: Value::from("strong"),
        reasoning: Value::from(reasoning),
        is_answer_call: true,
    }
}

fn pending() -> PendingCall<u32, &'static str, ModelId> {
    PendingCall {
        handle: 7,
        algorithm: "stage_router".to_string(),
        metadata: Some("session"),
        decision: decision(Some("why")),
    }
}

fn held() -> ModelCall<u32, &'static str, ModelId, &'static str> {
    ModelCall::new(pending(), "request", "decision")
}

fn assert_completed(failure: &PyFailure) {
    assert_eq!(failure.kind, ExceptionKind::LibsyError);
    assert_eq!(failure.message, "model call has already been completed");
}

#[test]
fn a_new_call_shows_what_it_was_made_with() {
    let call = held();
    assert_eq!(call.algorithm(), "stage_router");
    assert_eq!(*call.request(), "request");
    assert_eq!(*call.decision(), "decision");
}

#[test]
fn respond_sends_the_aggregate_with_the_request_metadata() {
    let mut call = held();
    let (handle, reply) = call.respond::<_, ()>(Ok("answer")).unwrap();
    assert_eq!(handle, 7);
    assert_eq!(reply.aggregate, "answer");
    assert_eq!(reply.metadata, Some("session"));
}

#[test]
fn a_response_that_cannot_be_converted_leaves_the_call_pending() {
    let mut call = held();
    match call.respond::<u8, _>(Err("bad dict")) {
        Err(Raised::Host(error)) => assert_eq!(error, "bad dict"),
        other => panic!("{other:?}"),
    }
    assert!(call.respond::<_, ()>(Ok(1)).is_ok());
}

#[test]
fn a_conversion_error_is_reported_even_after_completion() {
    let mut call = held();
    call.take().unwrap();
    assert!(matches!(call.respond::<u8, _>(Err(3)), Err(Raised::Host(3))));
    match call.respond::<u8, i32>(Ok(1)) {
        Err(Raised::Bindings(failure)) => assert_completed(&failure),
        other => panic!("{other:?}"),
    }
}

#[test]
fn fail_names_the_selected_model() {
    let mut call = held();
    let (handle, reply) = call.fail("boom", true).unwrap();
    assert_eq!(handle, 7);
    assert_eq!(reply.target.name, "strong");
    assert_eq!(reply.source, "boom");
    assert_completed(&call.fail("again", true).unwrap_err());
}

#[test]
fn fail_takes_exceptions_only() {
    let mut call = held();
    let failure = call.fail("text", false).unwrap_err();
    assert_eq!(failure.kind, ExceptionKind::TypeError);
    assert_eq!(failure.message, "error must derive from BaseException");
    assert!(call.fail("boom", true).is_ok());
    assert_eq!(call.fail("text", false).unwrap_err().kind, ExceptionKind::TypeError);
}

fn parts(handle: u32) -> Result<(String, Decision<ModelId>), &'static str> {
    let made = Decision {
        selected_model_id: ModelId::new("weak".to_string()),
        selected_model_json: Value::from("weak"),
        reasoning: Value::Null,
        is_answer_call: false,
    };
    Ok((format!("request {handle}"), made))
}

fn broken(_: u32) -> Result<(String, Decision<ModelId>), &'static str> {
    Err("no dict")
}

#[test]
fn take_parts_shows_the_parts_that_came_out_of_the_call() {
    let mut call = held();
    let (request, value) = call.take_parts(parts).unwrap();
    assert_eq!(request, "request 7");
    assert_eq!(value["selected_model_id"], "weak");
    assert_eq!(value["is_answer_call"], false);
    match call.take_parts(parts) {
        Err(Raised::Bindings(failure)) => assert_completed(&failure),
        other => panic!("{other:?}"),
    }
}

#[test]
fn a_call_that_cannot_be_split_is_gone() {
    let mut call = held();
    assert!(matches!(call.take_parts(broken), Err(Raised::Host("no dict"))));
    assert_completed(&call.take().unwrap_err());
}

#[test]
fn take_hands_the_whole_call_out_once() {
    let mut call = held();
    let taken = call.take().unwrap();
    assert_eq!(taken.handle, 7);
    assert_eq!(taken.metadata, Some("session"));
    assert_completed(&call.take().unwrap_err());
}

#[test]
fn a_call_is_completed_at_most_once() {
    let mut call = held();
    let mut done = 0;
    for round in 0..6 {
        let ok = match round % 3 {
            0 => call.fail("text", false).is_ok(),
            1 => call.respond::<_, ()>(Ok(round)).is_ok(),
            _ => call.take_parts(parts).is_ok(),
        };
        if ok {
            done += 1;
        }
    }
    assert_eq!(done, 1);
    assert_eq!(call.algorithm(), "stage_router");
    assert_eq!(*call.request(), "request");
}

#[test]
fn a_decision_becomes_an_object_of_three_fields() {
    let value = switchyard_py::decision_value(&decision(Some("say \"why\"")));
    let object = value.as_object().unwrap();
    assert_eq!(object.len(), 3);
    assert_eq!(object["selected_model_id"].as_str(), Some("strong"));
    assert_eq!(object["reasoning"].as_str(), Some("say \"why\""));
    assert_eq!(object["is_answer_call"].as_bool(), Some(true));
}

#[test]
fn an_object_shows_any_json_form() {
    let made = Decision {
        selected_model_id: 5,
        selected_model_json: Value::from(5),
        reasoning: Value::from(vec!["a", "b"]),
        is_answer_call: false,
    };
    let value = switchyard_py::decision_value(&made);
    assert_eq!(value["selected_model_id"], 5);
    assert_eq!(value["reasoning"][1], "b");
    assert_eq!(value["is_answer_call"], false);
}

#[test]
fn missing_reasoning_is_null() {
    let value = switchyard_py::decision_value(&decision(None));
    assert!(value["reasoning"].is_null());
    assert_ne!(value, switchyard_py::decision_value(&decision(Some(""))));
}

#[test]
fn each_step_has_its_action() {
    match step_to_python::<_, _, _, u8>(Step::CallModel(pending())) {
        StepAction::ShowCall { call, decision } => {
            assert_eq!(call.handle, 7);
            assert_eq!(decision["reasoning"], "why");
        }
        other => panic!("{other:?}"),
    }
    match step_to_python::<u32, u8, _, u8>(Step::Decision(decision(None))) {
        StepAction::ShowDecision { decision } => assert_eq!(decision["is_answer_call"], true),
        other => panic!("{other:?}"),
    }
    match step_to_python::<u32, u8, u8, _>(Step::Done("stream")) {
        StepAction::Collect { response } => assert_eq!(response, "stream"),
        other => panic!("{other:?}"),
    }
}

#[test]
fn a_stream_yields_steps_then_errors_then_ends() {
    assert!(matches!(
        next_step::<u32, u8, u8, _>(Some(Ok(Step::Done(5)))),
        Ok(StepAction::Collect { response: 5 })
    ));
    let failure = next_step::<u32, u8, u8, u8>(Some(Err("no route".to_string()))).unwrap_err();
    assert_eq!(failure.kind, ExceptionKind::LibsyError);
    assert_eq!(failure.message, "no route");
    let end = next_step::<u32, u8, u8, u8>(None).unwrap_err();
    assert_eq!(end.kind, ExceptionKind::StopAsyncIteration);
    assert_eq!(end.message, "");
}

#[test]
fn library_errors_become_libsy_errors() {
    assert_eq!(libsy_outcome(Ok(4)).unwrap(), 4);
    let failure = libsy_outcome::<u8>(Err("closed".to_string())).unwrap_err();
    assert_eq!(failure.kind, ExceptionKind::LibsyError);
    assert_eq!(failure.message, "closed");
}

#[test]
fn a_run_has_no_raw_request() {
    let request: Request<&str, u8, u8> = run_request("body", Some(9));
    assert_eq!(request.llm_request, "body");
    assert!(request.raw_request.is_none());
    assert_eq!(request.metadata, Some(9));
}

fn given(name: &str, value: &str) -> Option<HashMap<String, String>> {
    Some([(name.to_string(), value.to_string())].into_iter().collect())
}

#[test]
fn a_run_starts_with_both_or_reports_the_headers_first() {
    assert!(matches!(start_run::<_, u8, _>(Ok("map"), Ok("body")), Ok(("body", "map"))));
    assert!(matches!(start_run::<u8, _, _>(Ok("map"), Err(5)), Err(Raised::Host(5))));
    let refused = || Err::<u8, _>(PyFailure::value_error("bad header".to_string()));
    match start_run::<u8, _, _>(refused(), Err(5)) {
        Err(Raised::Bindings(failure)) => assert_eq!(failure.message, "bad header"),
        other => panic!("{other:?}"),
    }
    assert!(matches!(start_run::<_, u8, _>(refused(), Ok(1)), Err(Raised::Bindings(_))));
}

#[test]
fn a_run_is_prepared_from_headers_and_request() {
    let (body, map) = prepare_run(&given("X-A", "1"), || Ok::<_, u8>("body")).unwrap();
    assert_eq!(body, "body");
    assert_eq!(map.unwrap()["x-a"], "1");
    let (_, none) = prepare_run(&None, || Ok::<_, u8>("body")).unwrap();
    assert!(none.is_none());
}

#[test]
fn a_request_that_cannot_be_converted_starts_no_run() {
    let outcome = prepare_run(&given("a", "1"), || Err::<u8, _>("bad dict"));
    assert!(matches!(outcome, Err(Raised::Host("bad dict"))));
}

#[test]
fn bad_headers_are_reported_before_the_request_is_converted() {
    let mut converted = false;
    let outcome = prepare_run(&given("a", "\n"), || {
        converted = true;
        Err::<u8, _>("bad dict")
    });
    match outcome {
        Err(Raised::Bindings(failure)) => {
            assert_eq!(failure.kind, ExceptionKind::ValueError);
            assert_eq!(failure.message, "failed to parse header value");
        }
        other => panic!("{other:?}"),
    }
    assert!(!converted);
}

use switchyard_py::{
    llm_task_classifier_algorithm, picker_message, picker_mode, random_algorithm, random_outcome,
    stage_router_algorithm, target_cores, target_representation, value_outcome, BuildError, ExceptionKind, FloatBits,
    LlmFallback, LlmTarget, PickerMode, StageRouterOptions, TaskClassifierConfig,
};

fn target(name: &str) -> LlmTarget {
    LlmTarget::new(name.to_string())
}

fn bits(value: f64) -> FloatBits {
    FloatBits { bits: value.to_bits() }
}

fn options() -> StageRouterOptions {
    StageRouterOptions::new("capable_first".to_string(), bits(0.7))
}

fn some(text: &str) -> Option<String> {
    Some(text.to_string())
}

#[test]
fn a_target_shows_its_name() {
    assert_eq!(target("gpt").name(), "gpt");
    assert_eq!(target("gpt").__repr__(), "LlmTarget(name=\"gpt\")");
    assert_eq!(target("a\"b\n").__repr__(), "LlmTarget(name=\"a\\\"b\\n\")");
    assert_eq!(target_representation("'x'"), "LlmTarget(name='x')");
    assert_eq!(target("gpt").clone_core().name, "gpt");
}

#[test]
fn cores_keep_the_order_of_targets() {
    let cores = target_cores(&vec![target("b"), target("a"), target("b")]);
    let names: Vec<&str> = cores.iter().map(|id| id.name.as_str()).collect();
    assert_eq!(names, vec!["b", "a", "b"]);
    assert_eq!(target_cores(&Vec::new()).len(), 0);
}

#[test]
fn a_classifier_has_defaults() {
    let config = TaskClassifierConfig::with_defaults(bits(0.5));
    assert_eq!(f64::from_bits(config.base_threshold.bits), 0.5);
    assert_eq!(f64::from_bits(config.threshold_step.bits), 0.0);
    assert!(!config.session_affinity);
    assert!(!config.message_hash_fallback);
    assert_eq!(config.recent_turn_window, None);
    assert_eq!(config.contract.prompt, None);
    assert_eq!(config.max_output_tokens, 4096);
}

#[test]
fn a_classifier_keeps_what_it_is_given() {
    let config =
        TaskClassifierConfig::new(bits(0.4), bits(0.1), true, true, Some(3), 99, some("judge"));
    let copy = config.clone_core();
    assert_eq!(copy.base_threshold, bits(0.4));
    assert_eq!(copy.threshold_step, bits(0.1));
    assert!(copy.session_affinity && copy.message_hash_fallback);
    assert_eq!(copy.recent_turn_window, Some(3));
    assert_eq!(copy.contract.prompt, some("judge"));
    assert_eq!(copy.max_output_tokens, 99);
}

#[test]
fn random_routing_takes_targets_weights_and_seed() {
    let plan = random_algorithm(
        &vec![target("a"), target("b")],
        Some(vec![bits(1.0), bits(3.0)]),
        Some(42),
    );
    assert_eq!(plan.targets[1].name, "b");
    assert_eq!(plan.weights.unwrap()[1], bits(3.0));
    assert_eq!(plan.seed, Some(42));
}

#[test]
fn random_routing_explains_missing_targets() {
    assert_eq!(random_outcome(Ok(1)).unwrap(), 1);
    let failure = random_outcome::<u8>(Err(BuildError::NoTargets)).unwrap_err();
    assert_eq!(failure.kind, ExceptionKind::ValueError);
    assert_eq!(failure.message, "random requires at least one target");
    let failure = random_outcome::<u8>(Err(BuildError::Other("bad weight".to_string()))).unwrap_err();
    assert_eq!(failure.kind, ExceptionKind::ValueError);
    assert_eq!(failure.message, "bad weight");
}

#[test]
fn constructor_errors_become_value_errors() {
    assert_eq!(value_outcome(Ok(2)).unwrap(), 2);
    let failure = value_outcome::<u8>(Err("threshold".to_string())).unwrap_err();
    assert_eq!(failure.kind, ExceptionKind::ValueError);
    assert_eq!(failure.message, "threshold");
}

#[test]
fn task_classifier_routing_keeps_its_targets_apart() {
    let config = TaskClassifierConfig::with_defaults(bits(0.5));
    let plan =
        llm_task_classifier_algorithm(&target("judge"), &target("small"), &target("big"), &config);
    assert_eq!(plan.judge_target.name, "judge");
    assert_eq!(plan.efficient_target.name, "small");
    assert_eq!(plan.capable_target.name, "big");
    assert_eq!(plan.config.max_output_tokens, 4096);
}

#[test]
fn two_pickers_are_known() {
    assert_eq!(picker_mode(&"capable_first".to_string()).unwrap(), PickerMode::CapableFirst);
    assert_eq!(picker_mode(&"efficient_first".to_string()).unwrap(), PickerMode::EfficientFirst);
}

#[test]
fn an_unknown_picker_is_quoted() {
    assert_eq!(
        picker_message("<x>"),
        "picker must be 'capable_first' or 'efficient_first', got <x>"
    );
    let failure = picker_mode(&"Capable\tFirst".to_string()).unwrap_err();
    assert_eq!(failure.kind, ExceptionKind::ValueError);
    assert_eq!(
        failure.message,
        "picker must be 'capable_first' or 'efficient_first', got \"Capable\\tFirst\""
    );
}

#[test]
fn a_stage_router_with_defaults_has_no_extras() {
    let plan = stage_router_algorithm(&target("big"), &target("small"), options()).unwrap();
    assert_eq!(plan.capable.name, "big");
    assert_eq!(plan.efficient.name, "small");
    assert_eq!(plan.config.mode, PickerMode::CapableFirst);
    assert_eq!(plan.config.confidence_threshold, bits(0.7));
    assert_eq!(plan.config.recent_window, None);
    assert!(plan.config.handoff_notes.is_none());
    assert!(plan.config.tier_prompts.entries.is_empty());
    assert!(plan.config.llm_fallback.is_none());
    assert!(options().only_on_wrong_signal_escalation);
}

#[test]
fn a_stage_router_takes_all_options() {
    let mut given = options();
    given.picker = "efficient_first".to_string();
    given.recent_window = Some(5);
    given.escalation_note = some("up");
    given.deescalation_note = some("down");
    given.only_on_wrong_signal_escalation = false;
    given.capable_system_prompt = some("think");
    given.efficient_system_prompt = some("be quick");
    given.classifier = Some(LlmFallback::new(
        target("judge"),
        TaskClassifierConfig::with_defaults(bits(0.5)),
    ));
    let config = stage_router_algorithm(&target("big"), &target("small"), given).unwrap().config;
    assert_eq!(config.mode, PickerMode::EfficientFirst);
    assert_eq!(config.recent_window, Some(5));
    let notes = config.handoff_notes.unwrap();
    assert_eq!(notes.escalation, "up");
    assert_eq!(notes.deescalation, some("down"));
    assert!(!notes.only_on_wrong_signal_escalation);
    let entries = config.tier_prompts.entries;
    assert_eq!(entries.len(), 2);
    assert_eq!((entries[0].0.name.as_str(), entries[0].1.as_str()), ("big", "think"));
    assert_eq!((entries[1].0.name.as_str(), entries[1].1.as_str()), ("small", "be quick"));
    let fallback = config.llm_fallback.unwrap();
    assert_eq!(fallback.judge_target.name, "judge");
    assert_eq!(fallback.config.base_threshold, bits(0.5));
}

#[test]
fn an_escalation_note_may_stand_alone() {
    let mut given = options();
    given.escalation_note = some("up");
    let plan = stage_router_algorithm(&target("big"), &target("small"), given).unwrap();
    let notes = plan.config.handoff_notes.unwrap();
    assert_eq!(notes.deescalation, None);
    assert!(notes.only_on_wrong_signal_escalation);
}

#[test]
fn a_deescalation_note_needs_an_escalation_note() {
    let mut given = options();
    given.deescalation_note = some("down");
    let failure = stage_router_algorithm(&target("big"), &target("small"), given).unwrap_err();
    assert_eq!(failure.kind, ExceptionKind::ValueError);
    assert_eq!(failure.message, "deescalation_note requires escalation_note");
}

#[test]
fn an_unknown_picker_is_reported_before_a_lone_note() {
    let mut given = options();
    given.picker = "x".to_string();
    given.deescalation_note = some("down");
    let failure = stage_router_algorithm(&target("big"), &target("small"), given).unwrap_err();
    assert_eq!(
        failure.message,
        "picker must be 'capable_first' or 'efficient_first', got \"x\""
    );
}

#[test]
fn the_escalation_flag_without_a_note_changes_nothing() {
    let mut given = options();
    given.only_on_wrong_signal_escalation = false;
    let plan = stage_router_algorithm(&target("big"), &target("small"), given).unwrap();
    assert!(plan.config.handoff_notes.is_none());
}

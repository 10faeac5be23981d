//! Construction of the algorithms: what each is made from, and which requests are refused.
use vstd::prelude::*;

use crate::classifier::{FallbackPlan, FloatBits, LlmFallback, TaskClassifierConfig};
use crate::failure::{value_error_view, ExceptionKind, PyFailure, PyFailureView};
use crate::target::{target_cores, LlmTarget, ModelId};
use crate::text::{debug_string, debug_text};

verus! {

/// What random routing is made from: the targets, relative weights and a seed.
#[derive(Debug)]
pub struct RandomPlan {
    pub targets: Vec<ModelId>,
    pub weights: Option<Vec<FloatBits>>,
    pub seed: Option<u64>,
}

/// Why random routing could not be made.
#[derive(Debug)]
pub enum BuildError {
    NoTargets,
    Other(String),
}

/// The plan is made from exactly these targets, weights and seed.
pub open spec fn is_random_plan(
    targets: Seq<LlmTarget>,
    weights: Option<Vec<FloatBits>>,
    seed: Option<u64>,
    plan: RandomPlan,
) -> bool {
    &&& plan.targets@ =~= targets.map_values(|target: LlmTarget| target.model_id())
    &&& plan.weights == weights
    &&& plan.seed == seed
}

/// Random routing chooses among all the targets, in their order and by their names, with the
/// weights and the seed that were given, if any were.
pub proof fn law_random_plan_keeps_everything(
    targets: Seq<LlmTarget>,
    weights: Option<Vec<FloatBits>>,
    seed: Option<u64>,
    plan: RandomPlan,
    at: int,
)
    requires
        is_random_plan(targets, weights, seed, plan),
    ensures
        plan.targets.len() == targets.len(),
        0 <= at < targets.len() ==> plan.targets[at].name == targets[at].name,
        plan.weights is Some <==> weights is Some,
        weights is Some ==> plan.weights->0@ == weights->0@,
        plan.seed == seed,
{
}

/// What random routing over the targets is made from.
pub fn random_algorithm(
    targets: &Vec<LlmTarget>,
    weights: Option<Vec<FloatBits>>,
    seed: Option<u64>,
) -> (plan: RandomPlan)
    ensures
        plan.targets@ == targets@.map_values(|target: LlmTarget| target.model_id()),
        plan.weights == weights,
        plan.seed == seed,
        is_random_plan(targets@, weights, seed, plan),
        plan.targets.len() == targets.len(),
        forall|i: int|
            0 <= i < targets.len() ==> (#[trigger] plan.targets[i]).name == targets[i].name,
{
    RandomPlan { targets: target_cores(targets), weights, seed }
}

/// What Python gets of the attempt to make random routing, whatever came of it.
pub open spec fn is_random_outcome<T>(
    result: Result<T, BuildError>,
    outcome: Result<T, PyFailure>,
) -> bool {
    match result {
        Ok(algorithm) => outcome == Ok::<T, PyFailure>(algorithm),
        Err(BuildError::NoTargets) => outcome matches Err(failure) && failure@ == value_error_view(
            "random requires at least one target"@,
        ),
        Err(BuildError::Other(message)) => outcome matches Err(failure) && failure@
            == value_error_view(message@),
    }
}

/// An algorithm that was made is handed on, and every error is a `ValueError`: the lack of targets
/// with a text of its own, any other with the error's text.
pub proof fn law_random_outcome<T>(result: Result<T, BuildError>, outcome: Result<T, PyFailure>)
    requires
        is_random_outcome(result, outcome),
    ensures
        outcome is Ok <==> result is Ok,
        result is Ok ==> outcome->Ok_0 == result->Ok_0,
        outcome is Err ==> outcome->Err_0.kind == ExceptionKind::ValueError,
        result matches Err(BuildError::NoTargets) ==> outcome->Err_0.message@
            == "random requires at least one target"@,
        result matches Err(BuildError::Other(message)) ==> outcome->Err_0.message@ == message@,
{
}

/// What Python gets of the attempt to make random routing.
pub fn random_outcome<T>(result: Result<T, BuildError>) -> (outcome: Result<T, PyFailure>)
    ensures
        match result {
            Ok(algorithm) => outcome == Ok::<T, PyFailure>(algorithm),
            Err(BuildError::NoTargets) => outcome matches Err(failure) && failure@
                == value_error_view("random requires at least one target"@),
            Err(BuildError::Other(message)) => outcome matches Err(failure) && failure@
                == value_error_view(message@),
        },
        is_random_outcome(result, outcome),
        outcome matches Err(failure) ==> failure.kind == ExceptionKind::ValueError,
        result matches Err(BuildError::NoTargets) ==> outcome->Err_0.message@
            == "random requires at least one target"@,
        result matches Err(BuildError::Other(message)) ==> outcome->Err_0.message@ == message@,
{
    match result {
        Ok(algorithm) => Ok(algorithm),
        Err(BuildError::NoTargets) => Err(
            PyFailure::value_error("random requires at least one target".to_owned()),
        ),
        Err(BuildError::Other(message)) => Err(PyFailure::value_error(message)),
    }
}

/// What task-level classifier routing is made from.
#[derive(Debug)]
pub struct CapabilityPlan {
    pub judge_target: ModelId,
    pub efficient_target: ModelId,
    pub capable_target: ModelId,
    pub config: TaskClassifierConfig,
}

/// The plan is made from exactly these targets and settings.
pub open spec fn is_capability_plan(
    judge_target: LlmTarget,
    efficient_target: LlmTarget,
    capable_target: LlmTarget,
    config: TaskClassifierConfig,
    plan: CapabilityPlan,
) -> bool {
    plan == (CapabilityPlan {
        judge_target: judge_target.model_id(),
        efficient_target: efficient_target.model_id(),
        capable_target: capable_target.model_id(),
        config,
    })
}

/// Each of the three targets has its own part in classifier routing, under its own name, and the
/// settings are those that were given.
pub proof fn law_capability_plan_keeps_the_parts(
    judge_target: LlmTarget,
    efficient_target: LlmTarget,
    capable_target: LlmTarget,
    config: TaskClassifierConfig,
    plan: CapabilityPlan,
)
    requires
        is_capability_plan(judge_target, efficient_target, capable_target, config, plan),
    ensures
        plan.judge_target.name == judge_target.name,
        plan.efficient_target.name == efficient_target.name,
        plan.capable_target.name == capable_target.name,
        plan.config == config,
{
}

/// What task-level classifier routing over the targets is made from.
pub fn llm_task_classifier_algorithm(
    judge_target: &LlmTarget,
    efficient_target: &LlmTarget,
    capable_target: &LlmTarget,
    config: &TaskClassifierConfig,
) -> (plan: CapabilityPlan)
    ensures
        plan == (CapabilityPlan {
            judge_target: judge_target.model_id(),
            efficient_target: efficient_target.model_id(),
            capable_target: capable_target.model_id(),
            config: *config,
        }),
        is_capability_plan(*judge_target, *efficient_target, *capable_target, *config, plan),
        plan.judge_target.name == judge_target.name,
        plan.efficient_target.name == efficient_target.name,
        plan.capable_target.name == capable_target.name,
        plan.config == *config,
{
    CapabilityPlan {
        judge_target: judge_target.clone_core(),
        efficient_target: efficient_target.clone_core(),
        capable_target: capable_target.clone_core(),
        config: config.clone_core(),
    }
}

/// Which tier a stage router picks when its signals do not decide.
#[derive(Clone, Copy, Debug, PartialEq, Eq, Structural)]
pub enum PickerMode {
    CapableFirst,
    EfficientFirst,
}

/// The mode that a picker's name stands for.
pub open spec fn named_mode(picker: Seq<char>) -> Option<PickerMode> {
    if picker == "capable_first"@ {
        Some(PickerMode::CapableFirst)
    } else if picker == "efficient_first"@ {
        Some(PickerMode::EfficientFirst)
    } else {
        None
    }
}

/// The failure for a picker's name that stands for no mode.
pub open spec fn picker_failure(picker: Seq<char>) -> PyFailureView {
    value_error_view(
        "picker must be 'capable_first' or 'efficient_first', got "@ + debug_text(
            picker,
        ),
    )
}

/// There are two pickers, each with its own mode, and no other text names one, not even another
/// spelling.
pub proof fn law_two_pickers(picker: Seq<char>)
    ensures
        named_mode(picker) == Some(PickerMode::CapableFirst) <==> picker == "capable_first"@,
        named_mode(picker) == Some(PickerMode::EfficientFirst) <==> picker == "efficient_first"@,
        named_mode(picker) is None <==> picker != "capable_first"@ && picker
            != "efficient_first"@,
        picker_failure(picker).kind == ExceptionKind::ValueError,
        picker_failure(picker).message
            == "picker must be 'capable_first' or 'efficient_first', got "@ + debug_text(picker),
{
    reveal_strlit("capable_first");
    reveal_strlit("efficient_first");
    assert("capable_first"@.len() == 13);
    assert("efficient_first"@.len() == 15);
}

/// What comes of a picker's name.
pub open spec fn picker_outcome(
    picker: Seq<char>,
    outcome: Result<PickerMode, PyFailure>,
) -> bool {
    match named_mode(picker) {
        Some(mode) => outcome == Ok::<PickerMode, PyFailure>(mode),
        None => outcome matches Err(failure) && failure@ == picker_failure(picker),
    }
}

/// A picker's name is taken exactly if it is one of the two, and for the mode that it names; a
/// refused one is quoted in a `ValueError`.
pub proof fn law_picker_outcome(picker: Seq<char>, outcome: Result<PickerMode, PyFailure>)
    requires
        picker_outcome(picker, outcome),
    ensures
        outcome matches Ok(mode) ==> picker == if mode == PickerMode::CapableFirst {
            "capable_first"@
        } else {
            "efficient_first"@
        },
        outcome matches Err(failure) ==> {
            &&& picker != "capable_first"@
            &&& picker != "efficient_first"@
            &&& failure.kind == ExceptionKind::ValueError
            &&& failure.message@ == "picker must be 'capable_first' or 'efficient_first', got "@
                + debug_text(picker)
        },
{
    law_two_pickers(picker);
}

/// The message for a picker's name that stands for no mode, given the name in quotes.
pub fn picker_message(quoted: &str) -> (text: String)
    ensures
        text@ == "picker must be 'capable_first' or 'efficient_first', got "@ + quoted@,
{
    "picker must be 'capable_first' or 'efficient_first', got ".to_owned().concat(quoted)
}

/// The mode that a picker's name stands for.
pub fn picker_mode(picker: &String) -> (outcome: Result<PickerMode, PyFailure>)
    ensures
        match named_mode(picker@) {
            Some(mode) => outcome == Ok::<PickerMode, PyFailure>(mode),
            None => outcome matches Err(failure) && failure@ == picker_failure(picker@),
        },
        picker_outcome(picker@, outcome),
        outcome matches Ok(mode) ==> picker@ == if mode == PickerMode::CapableFirst {
            "capable_first"@
        } else {
            "efficient_first"@
        },
        outcome matches Err(failure) ==> {
            &&& picker@ != "capable_first"@
            &&& picker@ != "efficient_first"@
            &&& failure.kind == ExceptionKind::ValueError
            &&& failure.message@ == "picker must be 'capable_first' or 'efficient_first', got "@
                + debug_text(picker@)
        },
{
    proof {
        law_two_pickers(picker@);
    }
    if *picker == "capable_first".to_owned() {
        Ok(PickerMode::CapableFirst)
    } else if *picker == "efficient_first".to_owned() {
        Ok(PickerMode::EfficientFirst)
    } else {
        let quoted = debug_string(picker.as_str());
        Err(PyFailure::value_error(picker_message(quoted.as_str())))
    }
}

/// The notes that a stage router hands over between tiers.
#[derive(Debug)]
pub struct HandoffNoteConfig {
    pub escalation: String,
    pub deescalation: Option<String>,
    pub only_on_wrong_signal_escalation: bool,
}

/// The failure for a de-escalation note that comes alone.
pub open spec fn lone_deescalation_failure() -> PyFailureView {
    value_error_view("deescalation_note requires escalation_note"@)
}

/// What comes of the two notes and of the flag that goes with them.
pub open spec fn notes_outcome(
    escalation_note: Option<String>,
    deescalation_note: Option<String>,
    only_on_wrong_signal_escalation: bool,
    outcome: Result<Option<HandoffNoteConfig>, PyFailure>,
) -> bool {
    match (escalation_note, deescalation_note) {
        (Some(escalation), deescalation) => outcome matches Ok(Some(notes)) && notes == (
        HandoffNoteConfig { escalation, deescalation, only_on_wrong_signal_escalation }),
        (None, Some(_)) => outcome matches Err(failure) && failure@ == lone_deescalation_failure(),
        (None, None) => outcome matches Ok(None),
    }
}

/// Notes are handed over exactly if there is one for escalation, and then both as they were given,
/// with the flag; a note for de-escalation alone, and nothing else, is refused.
pub proof fn law_notes_outcome(
    escalation_note: Option<String>,
    deescalation_note: Option<String>,
    only_on_wrong_signal_escalation: bool,
    outcome: Result<Option<HandoffNoteConfig>, PyFailure>,
)
    requires
        notes_outcome(
            escalation_note,
            deescalation_note,
            only_on_wrong_signal_escalation,
            outcome,
        ),
    ensures
        outcome is Err <==> escalation_note is None && deescalation_note is Some,
        outcome matches Ok(notes) ==> (notes is Some <==> escalation_note is Some),
        outcome matches Ok(Some(notes)) ==> {
            &&& notes.escalation == escalation_note->0
            &&& notes.deescalation == deescalation_note
            &&& notes.only_on_wrong_signal_escalation == only_on_wrong_signal_escalation
        },
        outcome matches Err(failure) ==> {
            &&& failure.kind == ExceptionKind::ValueError
            &&& failure.message@ == "deescalation_note requires escalation_note"@
        },
{
}

/// The handoff notes of which both parts are optional, but the second not without the first.
pub fn handoff_notes(
    escalation_note: Option<String>,
    deescalation_note: Option<String>,
    only_on_wrong_signal_escalation: bool,
) -> (outcome: Result<Option<HandoffNoteConfig>, PyFailure>)
    ensures
        match (escalation_note, deescalation_note) {
            (Some(escalation), deescalation) => outcome matches Ok(Some(notes)) && notes == (
            HandoffNoteConfig { escalation, deescalation, only_on_wrong_signal_escalation }),
            (None, Some(_)) => outcome matches Err(failure) && failure@
                == lone_deescalation_failure(),
            (None, None) => outcome matches Ok(None),
        },
        notes_outcome(
            escalation_note,
            deescalation_note,
            only_on_wrong_signal_escalation,
            outcome,
        ),
        outcome matches Ok(Some(notes)) ==> {
            &&& notes.escalation == escalation_note->0
            &&& notes.deescalation == deescalation_note
            &&& notes.only_on_wrong_signal_escalation == only_on_wrong_signal_escalation
        },
        outcome matches Err(failure) ==> {
            &&& failure.kind == ExceptionKind::ValueError
            &&& failure.message@ == "deescalation_note requires escalation_note"@
        },
{
    match (escalation_note, deescalation_note) {
        (Some(escalation), deescalation) => Ok(
            Some(HandoffNoteConfig { escalation, deescalation, only_on_wrong_signal_escalation }),
        ),
        (None, Some(_)) => Err(
            PyFailure::value_error("deescalation_note requires escalation_note".to_owned()),
        ),
        (None, None) => Ok(None),
    }
}

/// System prompts for models, in the order in which they were added.
#[derive(Debug)]
pub struct TierPrompts {
    pub entries: Vec<(ModelId, String)>,
}

impl TierPrompts {
    /// No prompts.
    pub fn new() -> (prompts: TierPrompts)
        ensures
            prompts.entries@ == Seq::<(ModelId, String)>::empty(),
    {
        TierPrompts { entries: Vec::new() }
    }

    /// The prompts with one more at the end.
    pub fn with(self, model: ModelId, prompt: String) -> (prompts: TierPrompts)
        ensures
            prompts.entries@ == self.entries@.push((model, prompt)),
            prompts.entries.len() == self.entries.len() + 1,
            prompts.entries@.last() == (model, prompt),
            prompts.entries@.drop_last() =~= self.entries@,
    {
        let mut prompts = self;
        prompts.entries.push((model, prompt));
        prompts
    }
}

/// What a stage router is made from, besides its two targets.
#[derive(Debug)]
pub struct StageRouterConfig {
    pub mode: PickerMode,
    pub confidence_threshold: FloatBits,
    pub recent_window: Option<usize>,
    pub handoff_notes: Option<HandoffNoteConfig>,
    pub tier_prompts: TierPrompts,
    pub llm_fallback: Option<FallbackPlan>,
}

/// What a stage router is made from.
#[derive(Debug)]
pub struct StageRouterPlan {
    pub capable: ModelId,
    pub efficient: ModelId,
    pub config: StageRouterConfig,
}

/// The keyword arguments of stage routing.
#[derive(Debug)]
pub struct StageRouterOptions {
    pub picker: String,
    pub confidence_threshold: FloatBits,
    pub recent_window: Option<usize>,
    pub escalation_note: Option<String>,
    pub deescalation_note: Option<String>,
    pub only_on_wrong_signal_escalation: bool,
    pub capable_system_prompt: Option<String>,
    pub efficient_system_prompt: Option<String>,
    pub classifier: Option<LlmFallback>,
}

/// The options of which only the two that have no default are given.
pub open spec fn bare_options(
    picker: String,
    confidence_threshold: FloatBits,
) -> StageRouterOptions {
    StageRouterOptions {
        picker,
        confidence_threshold,
        recent_window: None,
        escalation_note: None,
        deescalation_note: None,
        only_on_wrong_signal_escalation: true,
        capable_system_prompt: None,
        efficient_system_prompt: None,
        classifier: None,
    }
}

/// What is not asked for is not there: options of which only the picker and the threshold are
/// given keep both, have neither window, notes, prompts nor classifier, and would hand notes over
/// on wrong-signal escalations only.
pub proof fn law_bare_options(picker: String, confidence_threshold: FloatBits)
    ensures
        bare_options(picker, confidence_threshold).picker == picker,
        bare_options(picker, confidence_threshold).confidence_threshold.bits
            == confidence_threshold.bits,
        bare_options(picker, confidence_threshold).recent_window is None,
        bare_options(picker, confidence_threshold).escalation_note is None,
        bare_options(picker, confidence_threshold).deescalation_note is None,
        bare_options(picker, confidence_threshold).only_on_wrong_signal_escalation,
        bare_options(picker, confidence_threshold).capable_system_prompt is None,
        bare_options(picker, confidence_threshold).efficient_system_prompt is None,
        bare_options(picker, confidence_threshold).classifier is None,
{
}

impl StageRouterOptions {
    /// Options of which only the two that have no default are given.
    pub fn new(picker: String, confidence_threshold: FloatBits) -> (options: StageRouterOptions)
        ensures
            options == (StageRouterOptions {
                picker,
                confidence_threshold,
                recent_window: None,
                escalation_note: None,
                deescalation_note: None,
                only_on_wrong_signal_escalation: true,
                capable_system_prompt: None,
                efficient_system_prompt: None,
                classifier: None,
            }),
            options == bare_options(picker, confidence_threshold),
    {
        StageRouterOptions {
            picker,
            confidence_threshold,
            recent_window: None,
            escalation_note: None,
            deescalation_note: None,
            only_on_wrong_signal_escalation: true,
            capable_system_prompt: None,
            efficient_system_prompt: None,
            classifier: None,
        }
    }

    /// The handoff notes that the options ask for.
    pub open spec fn notes(self) -> Option<HandoffNoteConfig> {
        match self.escalation_note {
            Some(escalation) => Some(
                HandoffNoteConfig {
                    escalation,
                    deescalation: self.deescalation_note,
                    only_on_wrong_signal_escalation: self.only_on_wrong_signal_escalation,
                },
            ),
            None => None,
        }
    }

    /// The prompts that the options ask for: the capable tier's, then the efficient tier's.
    pub open spec fn prompts(self, capable: ModelId, efficient: ModelId) -> Seq<
        (ModelId, String),
    > {
        let first = match self.capable_system_prompt {
            Some(prompt) => seq![(capable, prompt)],
            None => Seq::empty(),
        };
        match self.efficient_system_prompt {
            Some(prompt) => first.push((efficient, prompt)),
            None => first,
        }
    }

    /// The fallback that the options ask for.
    pub open spec fn fallback(self) -> Option<FallbackPlan> {
        match self.classifier {
            Some(classifier) => Some(classifier.plan()),
            None => None,
        }
    }

    /// The failure with which the options are refused, where they are: an unknown picker before
    /// a lone de-escalation note.
    pub open spec fn refusal(self) -> Option<PyFailureView> {
        if named_mode(self.picker@) is None {
            Some(picker_failure(self.picker@))
        } else if self.escalation_note is None && self.deescalation_note is Some {
            Some(lone_deescalation_failure())
        } else {
            None
        }
    }
}

/// Options are refused for their picker and for which notes they hold, and for nothing else.
pub proof fn law_refusal_rests_on_picker_and_notes(a: StageRouterOptions, b: StageRouterOptions)
    requires
        a.picker@ == b.picker@,
        a.escalation_note is Some <==> b.escalation_note is Some,
        a.deescalation_note is Some <==> b.deescalation_note is Some,
    ensures
        a.refusal() == b.refusal(),
{
}

/// Without an escalation note it makes no difference on which escalations a note is wanted.
pub proof fn law_flag_without_note(a: StageRouterOptions, b: StageRouterOptions)
    requires
        a.escalation_note is None,
        b == (StageRouterOptions {
            only_on_wrong_signal_escalation: b.only_on_wrong_signal_escalation,
            ..a
        }),
    ensures
        a.refusal() == b.refusal(),
        a.notes() == b.notes(),
        a.fallback() == b.fallback(),
        forall|capable: ModelId, efficient: ModelId| #[trigger]
            a.prompts(capable, efficient) == b.prompts(capable, efficient),
{
}

/// Each tier's prompt stands under that tier's own model, whichever other prompt is given: the
/// capable tier's first, the efficient tier's last, and no other entry.
pub proof fn law_prompts_stand_under_their_models(
    options: StageRouterOptions,
    capable: ModelId,
    efficient: ModelId,
)
    ensures
        ({
            let entries = options.prompts(capable, efficient);
            let first: int = if options.capable_system_prompt is Some {
                1
            } else {
                0
            };
            let last: int = if options.efficient_system_prompt is Some {
                1
            } else {
                0
            };
            &&& entries.len() == first + last
            &&& options.capable_system_prompt matches Some(prompt) ==> entries.first() == (
                capable,
                prompt,
            )
            &&& options.efficient_system_prompt matches Some(prompt) ==> entries.last() == (
                efficient,
                prompt,
            )
        }),
        options.capable_system_prompt is None ==> (options.efficient_system_prompt matches Some(
            prompt,
        ) ==> options.prompts(capable, efficient) =~= seq![(efficient, prompt)]),
        options.efficient_system_prompt is None ==> (options.capable_system_prompt matches Some(
            prompt,
        ) ==> options.prompts(capable, efficient) =~= seq![(capable, prompt)]),
{
}

/// A tier's prompt does not depend on the other tier: without it, the other tier's entry stays as
/// it is and no entry takes its place.
pub proof fn law_prompts_are_independent(
    both: StageRouterOptions,
    one: StageRouterOptions,
    other: StageRouterOptions,
    capable: ModelId,
    efficient: ModelId,
)
    requires
        one == (StageRouterOptions { efficient_system_prompt: None, ..both }),
        other == (StageRouterOptions { capable_system_prompt: None, ..both }),
    ensures
        both.prompts(capable, efficient) =~= one.prompts(capable, efficient) + other.prompts(
            capable,
            efficient,
        ),
        forall|renamed: ModelId| #[trigger]
            one.prompts(capable, renamed) == one.prompts(capable, efficient),
        forall|renamed: ModelId| #[trigger]
            other.prompts(renamed, efficient) == other.prompts(capable, efficient),
{
}

/// What may come of the options for a stage router over the two targets.
pub open spec fn router_outcome(
    capable_target: LlmTarget,
    efficient_target: LlmTarget,
    options: StageRouterOptions,
    outcome: Result<StageRouterPlan, PyFailure>,
) -> bool {
    match options.refusal() {
        Some(refusal) => outcome matches Err(failure) && failure@ == refusal,
        None => {
            &&& outcome matches Ok(plan)
            &&& plan.capable == capable_target.model_id()
            &&& plan.efficient == efficient_target.model_id()
            &&& named_mode(options.picker@) == Some(plan.config.mode)
            &&& plan.config.confidence_threshold == options.confidence_threshold
            &&& plan.config.recent_window == options.recent_window
            &&& plan.config.handoff_notes == options.notes()
            &&& plan.config.tier_prompts.entries@ == options.prompts(plan.capable, plan.efficient)
            &&& plan.config.llm_fallback == options.fallback()
        },
    }
}

/// A stage router is refused exactly for a picker that is none of the two, or else for a note for
/// de-escalation without one for escalation, and the failure says which.
pub proof fn law_router_refusals(
    capable_target: LlmTarget,
    efficient_target: LlmTarget,
    options: StageRouterOptions,
    outcome: Result<StageRouterPlan, PyFailure>,
)
    requires
        router_outcome(capable_target, efficient_target, options, outcome),
    ensures
        outcome is Ok <==> (options.picker@ == "capable_first"@ || options.picker@
            == "efficient_first"@) && (options.deescalation_note is Some
            ==> options.escalation_note is Some),
        outcome matches Err(failure) ==> {
            &&& failure.kind == ExceptionKind::ValueError
            &&& failure.message@ == if options.picker@ == "capable_first"@ || options.picker@
                == "efficient_first"@ {
                "deescalation_note requires escalation_note"@
            } else {
                "picker must be 'capable_first' or 'efficient_first', got "@ + debug_text(
                    options.picker@,
                )
            }
        },
{
    law_two_pickers(options.picker@);
}

/// A stage router is made from its two targets, by their names and each in its own tier, and from
/// every option as it was given: the mode that the picker names, the threshold, the window, the
/// notes, each tier's prompt under its own model, and the classifier's judge and whole policy.
pub proof fn law_router_plan_keeps_everything(
    capable_target: LlmTarget,
    efficient_target: LlmTarget,
    options: StageRouterOptions,
    plan: StageRouterPlan,
)
    requires
        router_outcome(capable_target, efficient_target, options, Ok(plan)),
    ensures
        plan.capable.name == capable_target.name,
        plan.efficient.name == efficient_target.name,
        plan.config.mode == PickerMode::CapableFirst <==> options.picker@ == "capable_first"@,
        plan.config.mode == PickerMode::EfficientFirst <==> options.picker@ == "efficient_first"@,
        plan.config.confidence_threshold.bits == options.confidence_threshold.bits,
        plan.config.recent_window == options.recent_window,
        plan.config.handoff_notes is Some <==> options.escalation_note is Some,
        plan.config.handoff_notes matches Some(notes) ==> {
            &&& notes.escalation == options.escalation_note->0
            &&& notes.deescalation == options.deescalation_note
            &&& notes.only_on_wrong_signal_escalation == options.only_on_wrong_signal_escalation
        },
        plan.config.tier_prompts.entries.len() == (if options.capable_system_prompt is Some {
            1int
        } else {
            0
        }) + (if options.efficient_system_prompt is Some {
            1int
        } else {
            0
        }),
        options.capable_system_prompt matches Some(prompt)
            ==> plan.config.tier_prompts.entries@.first() == (plan.capable, prompt),
        options.efficient_system_prompt matches Some(prompt)
            ==> plan.config.tier_prompts.entries@.last() == (plan.efficient, prompt),
        plan.config.llm_fallback is Some <==> options.classifier is Some,
        plan.config.llm_fallback matches Some(fallback) ==> {
            &&& fallback.judge_target.name == options.classifier->0.judge_target.name
            &&& fallback.config == options.classifier->0.config
        },
{
    law_two_pickers(options.picker@);
    law_prompts_stand_under_their_models(options, plan.capable, plan.efficient);
}

/// What stage routing over the two targets is made from.
pub fn stage_router_algorithm(
    capable_target: &LlmTarget,
    efficient_target: &LlmTarget,
    options: StageRouterOptions,
) -> (outcome: Result<StageRouterPlan, PyFailure>)
    ensures
        match options.refusal() {
            Some(refusal) => outcome matches Err(failure) && failure@ == refusal,
            None => {
                &&& outcome matches Ok(plan)
                &&& plan.capable == capable_target.model_id()
                &&& plan.efficient == efficient_target.model_id()
                &&& named_mode(options.picker@) == Some(plan.config.mode)
                &&& plan.config.confidence_threshold == options.confidence_threshold
                &&& plan.config.recent_window == options.recent_window
                &&& plan.config.handoff_notes == options.notes()
                &&& plan.config.tier_prompts.entries@ == options.prompts(
                    plan.capable,
                    plan.efficient,
                )
                &&& plan.config.llm_fallback == options.fallback()
            },
        },
        router_outcome(*capable_target, *efficient_target, options, outcome),
        outcome is Ok <==> (options.picker@ == "capable_first"@ || options.picker@
            == "efficient_first"@) && (options.deescalation_note is Some
            ==> options.escalation_note is Some),
        outcome matches Ok(plan) ==> {
            &&& plan.capable.name == capable_target.name
            &&& plan.efficient.name == efficient_target.name
            &&& plan.config.mode == PickerMode::CapableFirst <==> options.picker@
                == "capable_first"@
            &&& plan.config.confidence_threshold == options.confidence_threshold
            &&& plan.config.recent_window == options.recent_window
            &&& plan.config.handoff_notes is Some <==> options.escalation_note is Some
            &&& plan.config.handoff_notes matches Some(notes) ==> notes.escalation
                == options.escalation_note->0 && notes.deescalation == options.deescalation_note
                && notes.only_on_wrong_signal_escalation
                == options.only_on_wrong_signal_escalation
        },
        outcome matches Ok(plan) ==> plan.config.tier_prompts.entries@ =~= (
        match options.capable_system_prompt {
            Some(prompt) => seq![(plan.capable, prompt)],
            None => seq![],
        }) + (match options.efficient_system_prompt {
            Some(prompt) => seq![(plan.efficient, prompt)],
            None => seq![],
        }),
        outcome matches Ok(plan) ==> match (plan.config.llm_fallback, options.classifier) {
            (Some(fallback), Some(classifier)) => fallback.config == classifier.config
                && fallback.judge_target.name == classifier.judge_target.name,
            (None, None) => true,
            _ => false,
        },
        outcome matches Err(failure) ==> {
            &&& failure.kind == ExceptionKind::ValueError
            &&& failure.message@ == if options.picker@ == "capable_first"@ || options.picker@
                == "efficient_first"@ {
                "deescalation_note requires escalation_note"@
            } else {
                "picker must be 'capable_first' or 'efficient_first', got "@ + debug_text(
                    options.picker@,
                )
            }
        },
{
    proof {
        law_two_pickers(options.picker@);
    }
    let mode = match picker_mode(&options.picker) {
        Ok(mode) => mode,
        Err(failure) => {
            return Err(failure);
        },
    };
    let capable = capable_target.clone_core();
    let efficient = efficient_target.clone_core();
    let notes = match handoff_notes(
        options.escalation_note,
        options.deescalation_note,
        options.only_on_wrong_signal_escalation,
    ) {
        Ok(notes) => notes,
        Err(failure) => {
            return Err(failure);
        },
    };
    let mut tier_prompts = TierPrompts::new();
    if let Some(prompt) = options.capable_system_prompt {
        tier_prompts = tier_prompts.with(capable.clone(), prompt);
    }
    if let Some(prompt) = options.efficient_system_prompt {
        tier_prompts = tier_prompts.with(efficient.clone(), prompt);
    }
    let llm_fallback = match &options.classifier {
        Some(classifier) => Some(classifier.clone_core()),
        None => None,
    };
    Ok(
        StageRouterPlan {
            capable,
            efficient,
            config: StageRouterConfig {
                mode,
                confidence_threshold: options.confidence_threshold,
                recent_window: options.recent_window,
                handoff_notes: notes,
                tier_prompts,
                llm_fallback,
            },
        },
    )
}

} // verus!

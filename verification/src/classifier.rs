//! Settings of the task classifier and of the fallback that is built on it.
use vstd::prelude::*;

use crate::target::{LlmTarget, ModelId};

verus! {

/// A floating-point setting or weight, carried by its IEEE 754 bit pattern.
///
/// Nothing here computes with it; the host converts with `f64::to_bits` and `f64::from_bits`.
#[derive(Clone, Copy, Debug, PartialEq, Eq, Structural)]
pub struct FloatBits {
    pub bits: u64,
}

/// The threshold step that applies where none is given: the bits of zero.
pub const DEFAULT_THRESHOLD_STEP_BITS: u64 = 0;

/// The output limit that applies where none is given.
pub const DEFAULT_MAX_OUTPUT_TOKENS: u64 = 4096;

/// A copy of an optional text.
pub(crate) fn clone_text(text: &Option<String>) -> (copy: Option<String>)
    ensures
        copy == *text,
        copy is Some <==> text is Some,
        copy matches Some(copied) ==> copied@ == text->0@,
{
    match text {
        Some(text) => Some(text.clone()),
        None => None,
    }
}

/// The classifier's contract with its judge: the prompt, where the default one is replaced.
#[derive(Debug)]
pub struct ClassifierContractConfig {
    pub prompt: Option<String>,
}

impl Default for ClassifierContractConfig {
    fn default() -> (contract: ClassifierContractConfig)
        ensures
            contract.prompt is None,
    {
        ClassifierContractConfig { prompt: None }
    }
}

impl ClassifierContractConfig {
    /// The contract with the given prompt in place of any other.
    pub fn with_prompt(self, prompt: String) -> (contract: ClassifierContractConfig)
        ensures
            contract.prompt == Some(prompt),
    {
        ClassifierContractConfig { prompt: Some(prompt) }
    }
}

/// Classifier settings shared by standalone and stage-router classifiers.
#[derive(Debug)]
pub struct TaskClassifierConfig {
    pub base_threshold: FloatBits,
    pub threshold_step: FloatBits,
    pub session_affinity: bool,
    pub message_hash_fallback: bool,
    pub recent_turn_window: Option<usize>,
    pub contract: ClassifierContractConfig,
    pub max_output_tokens: u64,
}

/// The settings that the arguments give; the contract holds the prompt, where there is one.
pub open spec fn given_settings(
    base_threshold: FloatBits,
    threshold_step: FloatBits,
    session_affinity: bool,
    message_hash_fallback: bool,
    recent_turn_window: Option<usize>,
    max_output_tokens: u64,
    prompt: Option<String>,
) -> TaskClassifierConfig {
    TaskClassifierConfig {
        base_threshold,
        threshold_step,
        session_affinity,
        message_hash_fallback,
        recent_turn_window,
        contract: ClassifierContractConfig { prompt },
        max_output_tokens,
    }
}

/// Every argument can be read back from the settings, each under its own name.
pub proof fn law_settings_hold_the_arguments(
    base_threshold: FloatBits,
    threshold_step: FloatBits,
    session_affinity: bool,
    message_hash_fallback: bool,
    recent_turn_window: Option<usize>,
    max_output_tokens: u64,
    prompt: Option<String>,
)
    ensures
        ({
            let config = given_settings(
                base_threshold,
                threshold_step,
                session_affinity,
                message_hash_fallback,
                recent_turn_window,
                max_output_tokens,
                prompt,
            );
            &&& config.base_threshold.bits == base_threshold.bits
            &&& config.threshold_step.bits == threshold_step.bits
            &&& config.session_affinity == session_affinity
            &&& config.message_hash_fallback == message_hash_fallback
            &&& config.recent_turn_window == recent_turn_window
            &&& config.max_output_tokens == max_output_tokens
            &&& config.contract.prompt == prompt
        }),
{
}

/// The settings of which only the base threshold is given.
pub open spec fn default_settings(base_threshold: FloatBits) -> TaskClassifierConfig {
    TaskClassifierConfig {
        base_threshold,
        threshold_step: FloatBits { bits: DEFAULT_THRESHOLD_STEP_BITS },
        session_affinity: false,
        message_hash_fallback: false,
        recent_turn_window: None,
        contract: ClassifierContractConfig { prompt: None },
        max_output_tokens: DEFAULT_MAX_OUTPUT_TOKENS,
    }
}

/// Whatever the base threshold, it is kept, and what else was not given is switched off, absent,
/// zero or the usual output limit.
pub proof fn law_default_settings(base_threshold: FloatBits)
    ensures
        default_settings(base_threshold).base_threshold.bits == base_threshold.bits,
        default_settings(base_threshold).threshold_step.bits == 0,
        !default_settings(base_threshold).session_affinity,
        !default_settings(base_threshold).message_hash_fallback,
        default_settings(base_threshold).recent_turn_window is None,
        default_settings(base_threshold).contract.prompt is None,
        default_settings(base_threshold).max_output_tokens == 4096,
{
}

impl TaskClassifierConfig {
    /// Settings as given; the default contract, unless a prompt is given.
    pub fn new(
        base_threshold: FloatBits,
        threshold_step: FloatBits,
        session_affinity: bool,
        message_hash_fallback: bool,
        recent_turn_window: Option<usize>,
        max_output_tokens: u64,
        prompt: Option<String>,
    ) -> (config: TaskClassifierConfig)
        ensures
            config == (TaskClassifierConfig {
                base_threshold,
                threshold_step,
                session_affinity,
                message_hash_fallback,
                recent_turn_window,
                contract: ClassifierContractConfig { prompt },
                max_output_tokens,
            }),
            config == given_settings(
                base_threshold,
                threshold_step,
                session_affinity,
                message_hash_fallback,
                recent_turn_window,
                max_output_tokens,
                prompt,
            ),
    {
        let mut contract = ClassifierContractConfig::default();
        if let Some(prompt) = prompt {
            contract = contract.with_prompt(prompt);
        }
        TaskClassifierConfig {
            base_threshold,
            threshold_step,
            session_affinity,
            message_hash_fallback,
            recent_turn_window,
            contract,
            max_output_tokens,
        }
    }

    /// Settings of which only the base threshold is given.
    pub fn with_defaults(base_threshold: FloatBits) -> (config: TaskClassifierConfig)
        ensures
            config == (TaskClassifierConfig {
                base_threshold,
                threshold_step: FloatBits { bits: DEFAULT_THRESHOLD_STEP_BITS },
                session_affinity: false,
                message_hash_fallback: false,
                recent_turn_window: None,
                contract: ClassifierContractConfig { prompt: None },
                max_output_tokens: DEFAULT_MAX_OUTPUT_TOKENS,
            }),
            config == default_settings(base_threshold),
    {
        TaskClassifierConfig::new(
            base_threshold,
            FloatBits { bits: DEFAULT_THRESHOLD_STEP_BITS },
            false,
            false,
            None,
            DEFAULT_MAX_OUTPUT_TOKENS,
            None,
        )
    }

    /// A copy of the settings.
    pub fn clone_core(&self) -> (config: TaskClassifierConfig)
        ensures
            config == *self,
            config.base_threshold == self.base_threshold,
            config.threshold_step == self.threshold_step,
            config.session_affinity == self.session_affinity,
            config.message_hash_fallback == self.message_hash_fallback,
            config.recent_turn_window == self.recent_turn_window,
            config.contract.prompt == self.contract.prompt,
            config.max_output_tokens == self.max_output_tokens,
    {
        TaskClassifierConfig {
            base_threshold: self.base_threshold,
            threshold_step: self.threshold_step,
            session_affinity: self.session_affinity,
            message_hash_fallback: self.message_hash_fallback,
            recent_turn_window: self.recent_turn_window,
            contract: ClassifierContractConfig { prompt: clone_text(&self.contract.prompt) },
            max_output_tokens: self.max_output_tokens,
        }
    }
}

/// Judge target and policy used when stage-router signals are inconclusive.
#[derive(Debug)]
pub struct LlmFallback {
    pub judge_target: LlmTarget,
    pub config: TaskClassifierConfig,
}

/// A fallback in the form that an algorithm takes it: the judge by its model id.
#[derive(Debug)]
pub struct FallbackPlan {
    pub judge_target: ModelId,
    pub config: TaskClassifierConfig,
}

impl LlmFallback {
    /// The fallback in the form that an algorithm takes it.
    pub open spec fn plan(self) -> FallbackPlan {
        FallbackPlan { judge_target: self.judge_target.model_id(), config: self.config }
    }

    /// The fallback has this judge and this policy.
    pub open spec fn made_of(self, judge_target: LlmTarget, config: TaskClassifierConfig) -> bool {
        self == (LlmFallback { judge_target, config })
    }

    /// A fallback with the given judge and policy.
    pub fn new(judge_target: LlmTarget, config: TaskClassifierConfig) -> (fallback: LlmFallback)
        ensures
            fallback == (LlmFallback { judge_target, config }),
            fallback.made_of(judge_target, config),
            fallback.plan().judge_target.name == judge_target.name,
            fallback.plan().config == config,
    {
        LlmFallback { judge_target, config }
    }

    /// A copy of the judge's model id and of the policy.
    pub fn clone_core(&self) -> (plan: FallbackPlan)
        ensures
            plan == self.plan(),
            plan.judge_target.name == self.judge_target.name,
            plan.config == self.config,
            plan.config.base_threshold == self.config.base_threshold,
            plan.config.threshold_step == self.config.threshold_step,
            plan.config.session_affinity == self.config.session_affinity,
            plan.config.message_hash_fallback == self.config.message_hash_fallback,
            plan.config.recent_turn_window == self.config.recent_turn_window,
            plan.config.contract.prompt == self.config.contract.prompt,
            plan.config.max_output_tokens == self.config.max_output_tokens,
    {
        FallbackPlan {
            judge_target: self.judge_target.clone_core(),
            config: self.config.clone_core(),
        }
    }
}

/// What a fallback was made of is what an algorithm gets of it: the judge under the name of its
/// target, and the whole policy.
pub proof fn law_fallback_is_what_it_was_made_of(
    fallback: LlmFallback,
    judge_target: LlmTarget,
    config: TaskClassifierConfig,
)
    requires
        fallback.made_of(judge_target, config),
    ensures
        fallback.judge_target.name == judge_target.name,
        fallback.config == config,
        fallback.plan().judge_target.name == judge_target.name,
        fallback.plan().config == config,
{
}

/// The policy of a fallback is the one that it was made with, in every setting, and its judge is
/// named as its target is.
pub proof fn law_plan_keeps_judge_and_policy(fallback: LlmFallback)
    ensures
        fallback.plan().judge_target.name == fallback.judge_target.name,
        fallback.plan().config == fallback.config,
{
}

/// Fallbacks that differ in the judge's name or in any setting are different plans.
pub proof fn law_plans_tell_fallbacks_apart(a: LlmFallback, b: LlmFallback)
    requires
        a.plan() == b.plan(),
    ensures
        a.judge_target.name == b.judge_target.name,
        a.config.base_threshold == b.config.base_threshold,
        a.config.threshold_step == b.config.threshold_step,
        a.config.session_affinity == b.config.session_affinity,
        a.config.message_hash_fallback == b.config.message_hash_fallback,
        a.config.recent_turn_window == b.config.recent_turn_window,
        a.config.contract.prompt == b.config.contract.prompt,
        a.config.max_output_tokens == b.config.max_output_tokens,
{
}

} // verus!

//! Verified core of the Python bindings for routing algorithms.
//!
//! Everything here works on plain values. The host glue borrows Python objects, runs the
//! algorithms and raises exceptions; what it hands over and what it gets back is decided here.
pub mod algorithms;
pub mod call;
pub mod classifier;
pub mod failure;
pub mod header_laws;
pub mod headers;
pub mod json;
pub mod request;
pub mod stream;
pub mod target;
pub mod text;

pub use algorithms::{
    handoff_notes, llm_task_classifier_algorithm, picker_message, picker_mode, random_algorithm,
    random_outcome, stage_router_algorithm, BuildError, CapabilityPlan, HandoffNoteConfig,
    PickerMode, RandomPlan, StageRouterConfig, StageRouterOptions, StageRouterPlan, TierPrompts,
};
pub use call::{AggregateResponse, ClientCallError, ModelCall, PendingCall, Raised};
pub use classifier::{
    ClassifierContractConfig, FallbackPlan, LlmFallback, TaskClassifierConfig, FloatBits,
    DEFAULT_MAX_OUTPUT_TOKENS, DEFAULT_THRESHOLD_STEP_BITS,
};
pub use failure::{libsy_outcome, value_outcome, ExceptionKind, PyFailure};
pub use headers::{header_map_from_pairs, header_map_from_python};
pub use json::{decision_value, Decision};
pub use request::{prepare_run, request_headers, run_request, start_run, Request};
pub use stream::{next_step, step_to_python, Step, StepAction};
pub use target::{target_cores, target_representation, LlmTarget, ModelId};

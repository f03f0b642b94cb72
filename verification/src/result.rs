//! The auditable outcome handed back to the caller for every processed
//! capture event, together with the reasons an event can be skipped without
//! invoking the vision model.

use vstd::prelude::*;

verus! {

/// Why an event was processed without invoking the vision model.
#[derive(Debug, Clone, Copy, PartialEq, Eq, Structural)]
pub enum SkipVisionModelReason {
    /// The lingering state machine has not seen two consecutive stable
    /// samples yet.
    NotPrimed,
    /// The foreground application is this application itself, or the
    /// foreground could not be determined.
    InvalidFrontmostApp,
    /// The alert cooldown since the last shown distraction alert has not
    /// elapsed yet.
    NotEnoughTimeElapsedSinceAlert,
    /// The frame is perceptually near-identical to the previous analyzed
    /// frame.
    PerceptualHashDuplicate,
    /// Development mode short-circuits inference.
    DevMode,
    /// The frame could not be downscaled.
    Error,
}

/// The outcome record for one capture event.
#[derive(Debug, Clone)]
pub struct FocusGuardCallbackResult {
    /// Whether the vision model was invoked for this event.
    pub invoked_vision_model: bool,
    /// Whether the invocation produced a parseable score.
    pub vision_model_success: bool,
    /// The name of the backend used, empty when none was invoked.
    pub vision_model_descriptor: String,
    /// The reason the vision model was skipped, when it was not invoked.
    pub skip_vision_model_reason: Option<SkipVisionModelReason>,
    /// The raw backend response, when an invocation produced a score.
    pub vision_model_response: Option<String>,
    /// The parsed productivity score, or the `-1` sentinel when unavailable.
    pub productivity_score: i32,
}

impl FocusGuardCallbackResult {
    /// A fresh outcome: nothing invoked, nothing decided yet.
    pub fn new() -> (r: FocusGuardCallbackResult)
        ensures
            !r.invoked_vision_model,
            !r.vision_model_success,
            r.vision_model_descriptor@ == Seq::<char>::empty(),
            r.skip_vision_model_reason is None,
            r.vision_model_response is None,
            r.productivity_score == -1,
    {
        FocusGuardCallbackResult {
            invoked_vision_model: false,
            vision_model_success: false,
            vision_model_descriptor: String::new(),
            skip_vision_model_reason: None,
            vision_model_response: None,
            productivity_score: -1,
        }
    }
}

} // verus!

//! The engine's configuration, loaded once at startup and immutable for the
//! process lifetime.

use vstd::prelude::*;

verus! {

/// The configuration the distraction-detection engine is constructed from.
///
/// The image downscale factor is held as an integer percentage of the
/// original dimensions, between 10 and 100.
#[derive(Debug, Clone)]
pub struct FocusGuardConfig {
    /// The worker's job title, substituted into the inference prompt.
    pub job_title: String,
    /// The worker's job role, substituted into the inference prompt.
    pub job_role: String,
    /// Minimum seconds between two shown distraction alerts.
    pub duration_between_alerts_secs: u64,
    /// The configured backend identifier.
    pub llava_backend: String,
    /// The credential for the remote backend; required for it, unused
    /// otherwise.
    pub openai_api_key: String,
    /// Scores below this threshold count as distraction; between 1 and 10.
    pub productivity_score_threshold: i32,
    /// How far frames are downscaled before inference, in percent of the
    /// original dimensions; between 10 and 100.
    pub image_resize_scale_percent: u32,
    /// Bypass real inference with a fixed outcome, for testing.
    pub dev_mode: bool,
}

} // verus!

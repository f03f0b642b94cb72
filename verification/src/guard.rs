//! The distraction-detection engine: a lingering state machine gates
//! inference, an alert throttle and a perceptual-hash deduplication gate
//! suppress redundant work, and a below-threshold score surfaces an alert.

use vstd::prelude::*;
use crate::backend::{
    build_openai_payload, create_prompt, spec_backend_name, spec_prompt, LlavaBackendType,
};
use crate::config::FocusGuardConfig;
use crate::event::FocusGuardCallbackEvent;
use crate::imaging::{png_decodes, resize_image, spec_resize_succeeds, spec_resized};
use crate::encoding::encode_base64;
use crate::openai::{extract_content_openai_response, http_post_json};
use crate::ollama::invoke_ollama_vision_model;
use crate::parse::{find_first_number, spec_first_number};
use crate::phash::{
    calculate_perceptual_hash, hamming_distance, phash_bytes, spec_hamming, PHASH_DIST_THRESHOLD,
};
use crate::result::{FocusGuardCallbackResult, SkipVisionModelReason};
use crate::strutil::{spec_starts_with, str_eq, str_starts_with};

verus! {

/// The lingering state: `Idle` until one stable sample primes the machine,
/// `Primed` until the next sample confirms or invalidates the lingering.
#[derive(Debug, Clone, Copy, PartialEq, Eq, Structural)]
pub enum FocusGuardState {
    Idle,
    Primed,
}

/// The payload of a shown distraction alert.
#[derive(Debug, Clone)]
pub struct DistractionAlert {
    /// The identifier of the capture that triggered the alert.
    pub screenshot_id: i64,
    /// The below-threshold productivity score.
    pub productivity_score: i32,
    /// The raw backend response the score was parsed from.
    pub raw_llm_result: String,
    /// Where the offending frame is stored on disk.
    pub png_image_path: String,
    /// The worker's job title, for display.
    pub job_title: String,
    /// The worker's job role, for display.
    pub job_role: String,
}

/// The distraction-detection engine's state, owned exclusively by one
/// decision loop.
#[derive(Debug, Clone)]
pub struct FocusGuard {
    /// The worker's job title, substituted into the inference prompt.
    pub job_title: String,
    /// The worker's job role, substituted into the inference prompt.
    pub job_role: String,
    /// The credential for the remote backend.
    pub openai_api_key: String,
    /// Minimum seconds between two shown distraction alerts.
    pub duration_between_alerts_secs: u64,
    /// When the last distraction alert was shown, in seconds; `None` until
    /// the first alert, so that the first check is never throttled.
    pub last_distraction_alert_time: Option<u64>,
    /// The backend inference runs against.
    pub llava_backend: LlavaBackendType,
    /// Scores below this threshold count as distraction.
    pub productivity_score_threshold: i32,
    /// How far frames are downscaled before inference, in percent.
    pub image_resize_scale_percent: u32,
    /// Bypass real inference, for testing.
    pub dev_mode: bool,
    /// The lingering state.
    pub state: FocusGuardState,
    /// The perceptual fingerprint of the most recent downscaled frame, absent
    /// until the first successful hash.
    pub previous_phash_opt: Option<Vec<u8>>,
}

/// The foreground is this application itself or the sentinel for a missing
/// value: such an event never triggers inference.
pub open spec fn spec_invalid_frontmost(app: Seq<char>) -> bool {
    app == "missing value"@ || spec_starts_with(app, "com.screentap-app"@)
}

/// One step of the lingering state machine: the next state, and the reason
/// not to invoke, or `None` when two consecutive stable samples confirm
/// lingering.
pub open spec fn spec_lingering_step(
    state: FocusGuardState,
    invalid: bool,
    changed: bool,
) -> (FocusGuardState, Option<SkipVisionModelReason>) {
    if invalid {
        (FocusGuardState::Idle, Some(SkipVisionModelReason::InvalidFrontmostApp))
    } else {
        match state {
            FocusGuardState::Primed => {
                if !changed {
                    (FocusGuardState::Idle, None)
                } else {
                    (FocusGuardState::Idle, Some(SkipVisionModelReason::NotPrimed))
                }
            },
            FocusGuardState::Idle => {
                if !changed {
                    (FocusGuardState::Primed, Some(SkipVisionModelReason::NotPrimed))
                } else {
                    (FocusGuardState::Idle, Some(SkipVisionModelReason::NotPrimed))
                }
            },
        }
    }
}

/// The cooldown since the last shown alert has elapsed.  It has trivially
/// elapsed while no alert was ever shown.
pub open spec fn spec_cooldown_elapsed(last: Option<u64>, now: u64, cooldown: u64) -> bool {
    match last {
        None => true,
        Some(t) => now >= t && now - t >= cooldown,
    }
}

/// Which reason, if any, makes the engine skip an event before any cost is
/// paid: the lingering state machine first, then the alert throttle, then
/// development mode.  `None` means the frame is downscaled, deduplicated and
/// possibly sent to the backend.
pub open spec fn spec_gate_skip(
    e: FocusGuard,
    invalid: bool,
    changed: bool,
    now: u64,
) -> Option<SkipVisionModelReason> {
    let step = spec_lingering_step(e.state, invalid, changed);
    if step.1 is Some {
        step.1
    } else if !spec_cooldown_elapsed(
        e.last_distraction_alert_time,
        now,
        e.duration_between_alerts_secs,
    ) {
        Some(SkipVisionModelReason::NotEnoughTimeElapsedSinceAlert)
    } else if e.dev_mode {
        Some(SkipVisionModelReason::DevMode)
    } else {
        None
    }
}

impl FocusGuard {
    /// The engine's internal invariant: the configured ranges hold, and any
    /// stored fingerprint has the fixed fingerprint length.
    pub open spec fn wf(self) -> bool {
        &&& 1 <= self.productivity_score_threshold <= 10
        &&& 10 <= self.image_resize_scale_percent <= 100
        &&& (self.previous_phash_opt matches Some(h) ==> h@.len() == 128)
    }

    /// The fields that never change after construction.
    pub open spec fn same_config(self, other: FocusGuard) -> bool {
        &&& self.job_title == other.job_title
        &&& self.job_role == other.job_role
        &&& self.openai_api_key == other.openai_api_key
        &&& self.duration_between_alerts_secs == other.duration_between_alerts_secs
        &&& self.llava_backend == other.llava_backend
        &&& self.productivity_score_threshold == other.productivity_score_threshold
        &&& self.image_resize_scale_percent == other.image_resize_scale_percent
        &&& self.dev_mode == other.dev_mode
    }

    /// Construct the engine from its configuration, or nothing when the
    /// configuration cannot enable it: an unknown backend identifier, the
    /// remote backend without a credential, or a threshold or downscale
    /// percentage outside its documented range.
    pub fn new_from_config(config: FocusGuardConfig) -> (r: Option<FocusGuard>)
        ensures
            spec_backend_of(config.llava_backend@) is None ==> r is None,
            spec_backend_of(config.llava_backend@) == Some(LlavaBackendType::OpenAI)
                && config.openai_api_key@.len() == 0 ==> r is None,
            !(1 <= config.productivity_score_threshold <= 10) ==> r is None,
            !(10 <= config.image_resize_scale_percent <= 100) ==> r is None,
            r matches Some(e) ==> {
                &&& e.wf()
                &&& spec_backend_of(config.llava_backend@) == Some(e.llava_backend)
                &&& e.llava_backend == LlavaBackendType::OpenAI ==> config.openai_api_key@.len()
                    > 0
                &&& e.job_title == config.job_title
                &&& e.job_role == config.job_role
                &&& e.openai_api_key == config.openai_api_key
                &&& e.duration_between_alerts_secs == config.duration_between_alerts_secs
                &&& e.productivity_score_threshold == config.productivity_score_threshold
                &&& e.image_resize_scale_percent == config.image_resize_scale_percent
                &&& e.dev_mode == config.dev_mode
                &&& e.state == FocusGuardState::Idle
                &&& e.last_distraction_alert_time is None
                &&& e.previous_phash_opt is None
            },
            ({
                &&& 1 <= config.productivity_score_threshold <= 10
                &&& 10 <= config.image_resize_scale_percent <= 100
                &&& spec_backend_of(config.llava_backend@) matches Some(b)
                &&& b != LlavaBackendType::OpenAI || config.openai_api_key@.len() > 0
            }) ==> r is Some,
    {
        let llava_backend = match LlavaBackendType::from_str(config.llava_backend.as_str()) {
            Ok(b) => b,
            Err(()) => {
                return None;
            },
        };
        if llava_backend == LlavaBackendType::OpenAI && config.openai_api_key.as_str().is_empty() {
            return None;
        }
        if !(1 <= config.productivity_score_threshold && config.productivity_score_threshold
            <= 10) {
            return None;
        }
        if !(10 <= config.image_resize_scale_percent && config.image_resize_scale_percent <= 100) {
            return None;
        }
        Some(
            FocusGuard {
                job_title: config.job_title,
                job_role: config.job_role,
                openai_api_key: config.openai_api_key,
                duration_between_alerts_secs: config.duration_between_alerts_secs,
                last_distraction_alert_time: None,
                llava_backend,
                productivity_score_threshold: config.productivity_score_threshold,
                image_resize_scale_percent: config.image_resize_scale_percent,
                dev_mode: config.dev_mode,
                state: FocusGuardState::Idle,
                previous_phash_opt: None,
            },
        )
    }

    /// One step of the lingering state machine on the observed foreground:
    /// the reason not to invoke the vision model, or `None` when two
    /// consecutive stable samples confirm the user is lingering.
    pub fn should_invoke_vision_model(
        &mut self,
        frontmost_app: &str,
        frontmost_browser_tab: &str,
        frontmost_app_or_tab_changed: bool,
    ) -> (r: Option<SkipVisionModelReason>)
        ensures
            ({
                let step = spec_lingering_step(
                    old(self).state,
                    spec_invalid_frontmost(frontmost_app@),
                    frontmost_app_or_tab_changed,
                );
                final(self).state == step.0 && r == step.1
            }),
            final(self).same_config(*old(self)),
            final(self).last_distraction_alert_time == old(self).last_distraction_alert_time,
            final(self).previous_phash_opt == old(self).previous_phash_opt,
    {
        let _ = frontmost_browser_tab;
        if str_eq(frontmost_app, "missing value") || str_starts_with(
            frontmost_app,
            "com.screentap-app",
        ) {
            self.state = FocusGuardState::Idle;
            return Some(SkipVisionModelReason::InvalidFrontmostApp);
        }
        match self.state {
            FocusGuardState::Primed => {
                self.state = FocusGuardState::Idle;
                if !frontmost_app_or_tab_changed {
                    None
                } else {
                    Some(SkipVisionModelReason::NotPrimed)
                }
            },
            FocusGuardState::Idle => {
                if !frontmost_app_or_tab_changed {
                    self.state = FocusGuardState::Primed;
                }
                Some(SkipVisionModelReason::NotPrimed)
            },
        }
    }

    /// The cooldown since the last shown alert has elapsed.
    pub fn cooldown_elapsed(&self, now_secs: u64) -> (r: bool)
        ensures
            r == spec_cooldown_elapsed(
                self.last_distraction_alert_time,
                now_secs,
                self.duration_between_alerts_secs,
            ),
    {
        match &self.last_distraction_alert_time {
            None => true,
            Some(t) => now_secs >= *t && now_secs - *t >= self.duration_between_alerts_secs,
        }
    }

    /// Store a freshly computed fingerprint and report whether it is far
    /// enough from the previously stored one to warrant a new analysis.  The
    /// stored fingerprint is always refreshed, so drift is tracked relative
    /// to the most recent frame even when the event is then skipped.
    fn apply_new_phash(&mut self, phash: Vec<u8>) -> (r: bool)
        requires
            old(self).wf(),
            phash@.len() == 128,
        ensures
            final(self).wf(),
            final(self).previous_phash_opt == Some(phash),
            final(self).same_config(*old(self)),
            final(self).state == old(self).state,
            final(self).last_distraction_alert_time == old(self).last_distraction_alert_time,
            r == match old(self).previous_phash_opt {
                None => true,
                Some(p) => spec_hamming(p@, phash@) >= PHASH_DIST_THRESHOLD,
            },
    {
        let above = match &self.previous_phash_opt {
            Some(previous) => hamming_distance(previous, &phash) >= PHASH_DIST_THRESHOLD,
            None => true,
        };
        self.previous_phash_opt = Some(phash);
        above
    }

    /// Compute the fingerprint of a downscaled frame, refresh the stored
    /// fingerprint, and report whether the frame differs enough from the
    /// previous one to warrant a new analysis.  A frame that cannot be
    /// decoded warrants one and leaves the stored fingerprint unchanged.
    pub fn phash_delta_above_threshold(&mut self, png_data: &Vec<u8>, png_image_path: &str) -> (r:
        bool)
        requires
            old(self).wf(),
        ensures
            final(self).wf(),
            final(self).same_config(*old(self)),
            final(self).state == old(self).state,
            final(self).last_distraction_alert_time == old(self).last_distraction_alert_time,
            png_decodes(png_data@) ==> ({
                &&& final(self).previous_phash_opt matches Some(h)
                &&& h@ == phash_bytes(png_data@)
            }),
            !png_decodes(png_data@) ==> final(self).previous_phash_opt == old(
                self,
            ).previous_phash_opt,
            r == (!png_decodes(png_data@) || match old(self).previous_phash_opt {
                None => true,
                Some(p) => spec_hamming(p@, phash_bytes(png_data@)) >= PHASH_DIST_THRESHOLD,
            }),
    {
        let _ = png_image_path;
        match calculate_perceptual_hash(png_data) {
            Some(phash) => self.apply_new_phash(phash),
            None => true,
        }
    }
}

/// How the gates ruled on one capture event: skip with an outcome record,
/// or proceed to inference with the prompt and the downscaled frame.
pub enum EventEvaluation {
    /// The event is not analyzed; the record says why.
    Skip(FocusGuardCallbackResult),
    /// The event is worth analyzing.
    Ready(ReadyInference),
}

/// Everything an inference invocation needs.
pub struct ReadyInference {
    /// The prompt built from the worker's job title and job role.
    pub prompt: String,
    /// The downscaled frame, PNG-encoded.
    pub resized_png_data: Vec<u8>,
}

impl FocusGuard {
    /// Run the gates for one capture event, in order: the lingering state
    /// machine, the alert throttle, development mode, the downscale, and the
    /// duplicate-frame check.  Either the event is skipped with its reason,
    /// or the prompt and the downscaled frame are ready for inference.
    pub fn evaluate_event(&mut self, event: &FocusGuardCallbackEvent, now_secs: u64) -> (r:
        EventEvaluation)
        requires
            old(self).wf(),
        ensures
            final(self).wf(),
            final(self).same_config(*old(self)),
            final(self).state == spec_lingering_step(
                old(self).state,
                spec_invalid_frontmost(event.frontmost_app@),
                event.frontmost_app_or_tab_changed,
            ).0,
            final(self).last_distraction_alert_time == old(self).last_distraction_alert_time,
            ({
                let gate = spec_gate_skip(
                    *old(self),
                    spec_invalid_frontmost(event.frontmost_app@),
                    event.frontmost_app_or_tab_changed,
                    now_secs,
                );
                let resized = spec_resized(
                    event.png_data@,
                    old(self).image_resize_scale_percent,
                );
                let analyzable = spec_resize_succeeds(
                    event.png_data@,
                    old(self).image_resize_scale_percent,
                ) && png_decodes(resized);
                let duplicate = analyzable && match old(self).previous_phash_opt {
                    Some(p) => spec_hamming(p@, phash_bytes(resized)) < PHASH_DIST_THRESHOLD,
                    None => false,
                };
                &&& (r matches EventEvaluation::Skip(res) ==> {
                    &&& !res.invoked_vision_model
                    &&& !res.vision_model_success
                    &&& res.vision_model_descriptor@ == Seq::<char>::empty()
                    &&& res.vision_model_response is None
                    &&& res.productivity_score == -1
                    &&& res.skip_vision_model_reason is Some
                })
                &&& (gate matches Some(reason) ==> {
                    &&& r matches EventEvaluation::Skip(res)
                    &&& res.skip_vision_model_reason == Some(reason)
                    &&& final(self).previous_phash_opt == old(self).previous_phash_opt
                })
                &&& (gate is None ==> {
                    &&& (!analyzable ==> {
                        &&& r matches EventEvaluation::Skip(res)
                        &&& res.skip_vision_model_reason == Some(SkipVisionModelReason::Error)
                        &&& final(self).previous_phash_opt == old(self).previous_phash_opt
                    })
                    &&& (analyzable ==> {
                        &&& final(self).previous_phash_opt matches Some(h)
                        &&& h@ == phash_bytes(resized)
                    })
                    &&& (duplicate ==> {
                        &&& r matches EventEvaluation::Skip(res)
                        &&& res.skip_vision_model_reason == Some(
                            SkipVisionModelReason::PerceptualHashDuplicate,
                        )
                    })
                    &&& (analyzable && !duplicate ==> {
                        &&& r matches EventEvaluation::Ready(ready)
                        &&& ready.prompt@ == spec_prompt(old(self).job_title@, old(self).job_role@)
                        &&& ready.resized_png_data@ == resized
                    })
                })
            }),
    {
        let lingering = self.should_invoke_vision_model(
            event.frontmost_app.as_str(),
            event.frontmost_browser_tab.as_str(),
            event.frontmost_app_or_tab_changed,
        );
        if let Some(reason) = lingering {
            let mut res = FocusGuardCallbackResult::new();
            res.skip_vision_model_reason = Some(reason);
            return EventEvaluation::Skip(res);
        }
        if !self.cooldown_elapsed(now_secs) {
            let mut res = FocusGuardCallbackResult::new();
            res.skip_vision_model_reason = Some(
                SkipVisionModelReason::NotEnoughTimeElapsedSinceAlert,
            );
            return EventEvaluation::Skip(res);
        }
        if self.dev_mode {
            let mut res = FocusGuardCallbackResult::new();
            res.skip_vision_model_reason = Some(SkipVisionModelReason::DevMode);
            return EventEvaluation::Skip(res);
        }
        let resized_png_data = match resize_image(&event.png_data, self.image_resize_scale_percent)
        {
            Some(resized) => resized,
            None => {
                let mut res = FocusGuardCallbackResult::new();
                res.skip_vision_model_reason = Some(SkipVisionModelReason::Error);
                return EventEvaluation::Skip(res);
            },
        };
        let phash = match calculate_perceptual_hash(&resized_png_data) {
            Some(phash) => phash,
            None => {
                let mut res = FocusGuardCallbackResult::new();
                res.skip_vision_model_reason = Some(SkipVisionModelReason::Error);
                return EventEvaluation::Skip(res);
            },
        };
        let above_threshold = self.apply_new_phash(phash);
        if !above_threshold {
            let mut res = FocusGuardCallbackResult::new();
            res.skip_vision_model_reason = Some(SkipVisionModelReason::PerceptualHashDuplicate);
            return EventEvaluation::Skip(res);
        }
        let prompt = create_prompt(self.job_title.as_str(), self.job_role.as_str());
        EventEvaluation::Ready(ReadyInference { prompt, resized_png_data })
    }

    /// Parse a backend's free-text response into a productivity score.
    pub fn process_vision_model_result(&self, raw_llm_response: &str) -> (r: Option<i32>)
        ensures
            r == spec_first_number(raw_llm_response@),
    {
        find_first_number(raw_llm_response)
    }

    /// Interpret a backend response: parse the score, decide whether the
    /// worker is distracted, and reset the alert cooldown exactly when an
    /// alert is surfaced.
    pub fn conclude_inference(
        &mut self,
        raw_llm_result: String,
        screenshot_id: i64,
        png_image_path: &str,
        now_secs: u64,
    ) -> (r: (FocusGuardCallbackResult, Option<DistractionAlert>))
        ensures
            final(self).same_config(*old(self)),
            final(self).state == old(self).state,
            final(self).previous_phash_opt == old(self).previous_phash_opt,
            r.0.invoked_vision_model,
            r.0.skip_vision_model_reason is None,
            r.0.vision_model_descriptor@ == spec_backend_name(old(self).llava_backend),
            spec_first_number(raw_llm_result@) is None ==> {
                &&& !r.0.vision_model_success
                &&& r.0.vision_model_response is None
                &&& r.0.productivity_score == -1
                &&& r.1 is None
                &&& final(self).last_distraction_alert_time == old(
                    self,
                ).last_distraction_alert_time
            },
            spec_first_number(raw_llm_result@) matches Some(score) ==> {
                &&& r.0.vision_model_success
                &&& r.0.productivity_score == score
                &&& r.0.vision_model_response matches Some(t)
                &&& t@ == raw_llm_result@
                &&& (score < old(self).productivity_score_threshold ==> {
                    &&& r.1 matches Some(alert)
                    &&& alert.screenshot_id == screenshot_id
                    &&& alert.productivity_score == score
                    &&& alert.raw_llm_result@ == raw_llm_result@
                    &&& alert.png_image_path@ == png_image_path@
                    &&& alert.job_title == old(self).job_title
                    &&& alert.job_role == old(self).job_role
                    &&& final(self).last_distraction_alert_time == Some(now_secs)
                })
                &&& (score >= old(self).productivity_score_threshold ==> {
                    &&& r.1 is None
                    &&& final(self).last_distraction_alert_time == old(
                        self,
                    ).last_distraction_alert_time
                })
            },
    {
        let mut cb_result = FocusGuardCallbackResult::new();
        cb_result.invoked_vision_model = true;
        cb_result.vision_model_descriptor = self.llava_backend.name();
        match self.process_vision_model_result(raw_llm_result.as_str()) {
            None => (cb_result, None),
            Some(score) => {
                cb_result.vision_model_success = true;
                cb_result.productivity_score = score;
                let alert = if score < self.productivity_score_threshold {
                    self.last_distraction_alert_time = Some(now_secs);
                    Some(
                        DistractionAlert {
                            screenshot_id,
                            productivity_score: score,
                            raw_llm_result: raw_llm_result.clone(),
                            png_image_path: String::from_str(png_image_path),
                            job_title: self.job_title.clone(),
                            job_role: self.job_role.clone(),
                        },
                    )
                } else {
                    None
                };
                cb_result.vision_model_response = Some(raw_llm_result);
                (cb_result, alert)
            },
        }
    }

    /// Run one inference against the configured chat-style HTTP backend: the
    /// image is inlined as base64 in a JSON request, and the completion text
    /// is extracted from the response.  Any transport failure yields the
    /// empty string, which the parser then treats as unparseable.
    pub fn invoke_openai_vision_model(&self, prompt: &str, png_data: &Vec<u8>) -> (r: String)
        requires
            self.llava_backend == LlavaBackendType::OpenAI || self.llava_backend
                == LlavaBackendType::LlamaFile,
    {
        let image_b64 = encode_base64(png_data);
        let payload = build_openai_payload(self.llava_backend.model_name(), prompt, &image_b64);
        let mut authorization = String::new();
        authorization.append("Bearer ");
        authorization.append(self.openai_api_key.as_str());
        match http_post_json(self.llava_backend.target_url(), authorization.as_str(), payload) {
            Some(body) => extract_content_openai_response(body.as_str()),
            None => String::new(),
        }
    }

    /// Process one capture event to completion against an in-process
    /// backend: gate, downscale, deduplicate, invoke, parse, and decide
    /// whether to surface an alert.  The subprocess backend runs outside the
    /// engine; its caller runs `evaluate_event` and `conclude_inference`
    /// around the child process instead.
    pub fn process_focus_guard_event(&mut self, event: &FocusGuardCallbackEvent, now_secs: u64) -> (r:
        (FocusGuardCallbackResult, Option<DistractionAlert>))
        requires
            old(self).wf(),
            old(self).llava_backend != LlavaBackendType::LlamaFileSubprocess,
        ensures
            final(self).wf(),
            final(self).same_config(*old(self)),
            final(self).state == spec_lingering_step(
                old(self).state,
                spec_invalid_frontmost(event.frontmost_app@),
                event.frontmost_app_or_tab_changed,
            ).0,
            ({
                let gate = spec_gate_skip(
                    *old(self),
                    spec_invalid_frontmost(event.frontmost_app@),
                    event.frontmost_app_or_tab_changed,
                    now_secs,
                );
                let resized = spec_resized(
                    event.png_data@,
                    old(self).image_resize_scale_percent,
                );
                let analyzable = spec_resize_succeeds(
                    event.png_data@,
                    old(self).image_resize_scale_percent,
                ) && png_decodes(resized);
                let duplicate = analyzable && match old(self).previous_phash_opt {
                    Some(p) => spec_hamming(p@, phash_bytes(resized)) < PHASH_DIST_THRESHOLD,
                    None => false,
                };
                &&& (!r.0.invoked_vision_model ==> {
                    &&& !r.0.vision_model_success
                    &&& r.0.vision_model_descriptor@ == Seq::<char>::empty()
                    &&& r.0.vision_model_response is None
                    &&& r.0.productivity_score == -1
                    &&& r.0.skip_vision_model_reason is Some
                    &&& r.1 is None
                    &&& final(self).last_distraction_alert_time == old(
                        self,
                    ).last_distraction_alert_time
                })
                &&& (r.0.invoked_vision_model ==> r.0.skip_vision_model_reason is None)
                &&& (gate matches Some(reason) ==> {
                    &&& !r.0.invoked_vision_model
                    &&& r.0.skip_vision_model_reason == Some(reason)
                    &&& final(self).previous_phash_opt == old(self).previous_phash_opt
                })
                &&& (gate is None ==> {
                    &&& (!analyzable ==> {
                        &&& !r.0.invoked_vision_model
                        &&& r.0.skip_vision_model_reason == Some(SkipVisionModelReason::Error)
                        &&& final(self).previous_phash_opt == old(self).previous_phash_opt
                    })
                    &&& (analyzable ==> {
                        &&& final(self).previous_phash_opt matches Some(h)
                        &&& h@ == phash_bytes(resized)
                    })
                    &&& (duplicate ==> {
                        &&& !r.0.invoked_vision_model
                        &&& r.0.skip_vision_model_reason == Some(
                            SkipVisionModelReason::PerceptualHashDuplicate,
                        )
                    })
                    &&& (analyzable && !duplicate ==> r.0.invoked_vision_model)
                })
                &&& (r.0.invoked_vision_model ==> {
                    &&& r.0.vision_model_descriptor@ == spec_backend_name(old(self).llava_backend)
                    &&& (!r.0.vision_model_success ==> {
                        &&& r.0.vision_model_response is None
                        &&& r.0.productivity_score == -1
                        &&& r.1 is None
                        &&& final(self).last_distraction_alert_time == old(
                            self,
                        ).last_distraction_alert_time
                    })
                    &&& (r.0.vision_model_success ==> {
                        &&& r.0.vision_model_response matches Some(t)
                        &&& spec_first_number(t@) == Some(r.0.productivity_score)
                        &&& (r.0.productivity_score < old(self).productivity_score_threshold
                            ==> {
                            &&& r.1 matches Some(alert)
                            &&& alert.screenshot_id == event.screenshot_id
                            &&& alert.productivity_score == r.0.productivity_score
                            &&& alert.raw_llm_result@ == t@
                            &&& alert.png_image_path@ == event.png_image_path@
                            &&& alert.job_title == old(self).job_title
                            &&& alert.job_role == old(self).job_role
                            &&& final(self).last_distraction_alert_time == Some(now_secs)
                        })
                        &&& (r.0.productivity_score >= old(self).productivity_score_threshold
                            ==> {
                            &&& r.1 is None
                            &&& final(self).last_distraction_alert_time == old(
                                self,
                            ).last_distraction_alert_time
                        })
                    })
                })
            }),
    {
        let evaluation = self.evaluate_event(event, now_secs);
        match evaluation {
            EventEvaluation::Skip(res) => (res, None),
            EventEvaluation::Ready(ready) => {
                let raw_result = match self.llava_backend {
                    LlavaBackendType::OpenAI => self.invoke_openai_vision_model(
                        ready.prompt.as_str(),
                        &ready.resized_png_data,
                    ),
                    LlavaBackendType::LlamaFile => self.invoke_openai_vision_model(
                        ready.prompt.as_str(),
                        &ready.resized_png_data,
                    ),
                    LlavaBackendType::Ollama => {
                        let image_b64 = encode_base64(&ready.resized_png_data);
                        invoke_ollama_vision_model(ready.prompt.as_str(), image_b64)
                    },
                    LlavaBackendType::LlamaFileSubprocess => vstd::pervasive::unreached(),
                };
                self.conclude_inference(
                    raw_result,
                    event.screenshot_id,
                    event.png_image_path.as_str(),
                    now_secs,
                )
            },
        }
    }
}

/// A run of the lingering state machine over a sequence of observations,
/// each a pair of (foreground is invalid, foreground context changed).
pub open spec fn spec_lingering_run(
    init: FocusGuardState,
    inputs: Seq<(bool, bool)>,
) -> FocusGuardState
    decreases inputs.len(),
{
    if inputs.len() == 0 {
        init
    } else {
        spec_lingering_step(
            spec_lingering_run(init, inputs.drop_last()),
            inputs.last().0,
            inputs.last().1,
        ).0
    }
}

/// Law: over any run in which the foreground context changed on every
/// observation, the state machine never decides to invoke, and it ends Idle.
pub proof fn lemma_always_changed_never_invokes(init: FocusGuardState, inputs: Seq<(bool, bool)>)
    requires
        forall|i: int| 0 <= i < inputs.len() ==> (#[trigger] inputs[i]).1,
    ensures
        forall|i: int|
            0 <= i < inputs.len() ==> (#[trigger] spec_lingering_step(
                spec_lingering_run(init, inputs.take(i)),
                inputs[i].0,
                inputs[i].1,
            )).1 is Some,
        inputs.len() > 0 ==> spec_lingering_run(init, inputs) == FocusGuardState::Idle,
    decreases inputs.len(),
{
    if inputs.len() > 0 {
        let prefix = inputs.drop_last();
        lemma_always_changed_never_invokes(init, prefix);
        assert forall|i: int|
            0 <= i < inputs.len() implies (#[trigger] spec_lingering_step(
            spec_lingering_run(init, inputs.take(i)),
            inputs[i].0,
            inputs[i].1,
        )).1 is Some by {
            if i < inputs.len() - 1 {
                assert(inputs.take(i) =~= prefix.take(i));
            } else {
                assert(inputs.take(i) =~= prefix);
            }
        }
    }
}

/// Law: from Idle, the first of two consecutive stable samples of a valid
/// foreground primes the machine without invoking; the second invokes and
/// resets the machine to Idle.
pub proof fn lemma_two_stable_samples_invoke()
    ensures
        spec_lingering_step(FocusGuardState::Idle, false, false) == (
            FocusGuardState::Primed,
            Some(SkipVisionModelReason::NotPrimed),
        ),
        spec_lingering_step(FocusGuardState::Primed, false, false) == (
            FocusGuardState::Idle,
            Option::<SkipVisionModelReason>::None,
        ),
{
}

/// Law: after an alert was shown at `t1`, a second qualifying event at `t2`
/// is throttled exactly when less than the cooldown has passed: less than
/// the cooldown yields one alert in total, at least the cooldown lets the
/// second analysis proceed.
pub proof fn lemma_alert_cooldown(e: FocusGuard, t1: u64, t2: u64)
    requires
        e.last_distraction_alert_time == Some(t1),
        t1 <= t2,
        e.state is Primed,
        !e.dev_mode,
    ensures
        t2 - t1 < e.duration_between_alerts_secs ==> spec_gate_skip(e, false, false, t2) == Some(
            SkipVisionModelReason::NotEnoughTimeElapsedSinceAlert,
        ),
        t2 - t1 >= e.duration_between_alerts_secs ==> spec_gate_skip(e, false, false, t2) is None,
{
}

/// Law: two frames whose downscaled images are bit-identical have the same
/// fingerprint, at Hamming distance zero and so below the duplicate
/// threshold: the second of two such frames is skipped as a duplicate.
pub proof fn lemma_identical_resized_frames_are_duplicates(resized: Seq<u8>)
    ensures
        spec_hamming(phash_bytes(resized), phash_bytes(resized)) == 0,
        spec_hamming(phash_bytes(resized), phash_bytes(resized)) < PHASH_DIST_THRESHOLD,
{
    crate::phash::lemma_hamming_self(phash_bytes(resized));
}

/// The backend a configuration name selects.
pub open spec fn spec_backend_of(s: Seq<char>) -> Option<LlavaBackendType> {
    if s == "OpenAI"@ {
        Some(LlavaBackendType::OpenAI)
    } else if s == "LlamaFile"@ {
        Some(LlavaBackendType::LlamaFile)
    } else if s == "LlamaFileSubprocess"@ {
        Some(LlavaBackendType::LlamaFileSubprocess)
    } else if s == "Ollama"@ {
        Some(LlavaBackendType::Ollama)
    } else {
        None
    }
}

} // verus!

use screentap::backend::LlavaBackendType;
use screentap::config::FocusGuardConfig;
use screentap::event::FocusGuardCallbackEvent;
use screentap::guard::{EventEvaluation, FocusGuard};
use screentap::result::SkipVisionModelReason;

fn png_bytes(width: u32, height: u32, shade: u8) -> Vec<u8> {
    let img = image::ImageBuffer::from_pixel(width, height, image::Rgba([shade, shade, shade, 255u8]));
    let dynimg = image::DynamicImage::ImageRgba8(img);
    let mut out: Vec<u8> = Vec::new();
    dynimg
        .write_to(&mut std::io::Cursor::new(&mut out), image::ImageFormat::Png)
        .expect("encoding a test image cannot fail");
    out
}

fn test_config(threshold: i32, cooldown_secs: u64, dev_mode: bool) -> FocusGuardConfig {
    FocusGuardConfig {
        job_title: "Software Engineer".to_string(),
        job_role: "Backend development".to_string(),
        duration_between_alerts_secs: cooldown_secs,
        llava_backend: "OpenAI".to_string(),
        openai_api_key: "SECRET-REDACTED".to_string(),
        productivity_score_threshold: threshold,
        image_resize_scale_percent: 50,
        dev_mode,
    }
}

fn event(png_data: Vec<u8>, changed: bool, frontmost_app: &str) -> FocusGuardCallbackEvent {
    FocusGuardCallbackEvent {
        png_data,
        png_image_path: "/tmp/frame.png".to_string(),
        screenshot_id: 42,
        ocr_text: "some text".to_string(),
        frontmost_app: frontmost_app.to_string(),
        frontmost_browser_tab: "".to_string(),
        frontmost_app_or_tab_changed: changed,
    }
}

fn skip_reason(evaluation: EventEvaluation) -> SkipVisionModelReason {
    match evaluation {
        EventEvaluation::Skip(res) => {
            assert!(!res.invoked_vision_model);
            res.skip_vision_model_reason.expect("a skipped event must carry a reason")
        }
        EventEvaluation::Ready(_) => panic!("expected the event to be skipped"),
    }
}

#[test]
fn new_from_config_rejects_unknown_backend() {
    let mut config = test_config(6, 0, false);
    config.llava_backend = "SomethingElse".to_string();
    assert!(FocusGuard::new_from_config(config).is_none());
}

#[test]
fn new_from_config_rejects_remote_backend_without_credential() {
    let mut config = test_config(6, 0, false);
    config.openai_api_key = "".to_string();
    assert!(FocusGuard::new_from_config(config).is_none());
}

#[test]
fn new_from_config_rejects_out_of_range_threshold() {
    let config = test_config(11, 0, false);
    assert!(FocusGuard::new_from_config(config).is_none());
}

#[test]
fn new_from_config_accepts_local_backend_without_credential() {
    let mut config = test_config(6, 0, false);
    config.llava_backend = "Ollama".to_string();
    config.openai_api_key = "".to_string();
    let guard = FocusGuard::new_from_config(config).expect("the configuration is valid");
    assert_eq!(guard.llava_backend, LlavaBackendType::Ollama);
}

#[test]
fn first_stable_sample_primes_without_invoking() {
    let mut guard = FocusGuard::new_from_config(test_config(6, 0, false)).unwrap();
    let reason = guard.should_invoke_vision_model("com.google.Chrome", "", false);
    assert_eq!(reason, Some(SkipVisionModelReason::NotPrimed));
    let reason = guard.should_invoke_vision_model("com.google.Chrome", "", false);
    assert_eq!(reason, None);
}

#[test]
fn changed_context_never_invokes() {
    let mut guard = FocusGuard::new_from_config(test_config(6, 0, false)).unwrap();
    for _ in 0..5 {
        let reason = guard.should_invoke_vision_model("com.google.Chrome", "", true);
        assert_eq!(reason, Some(SkipVisionModelReason::NotPrimed));
    }
}

#[test]
fn primed_then_changed_resets_without_invoking() {
    let mut guard = FocusGuard::new_from_config(test_config(6, 0, false)).unwrap();
    assert_eq!(
        guard.should_invoke_vision_model("com.apple.Safari", "", false),
        Some(SkipVisionModelReason::NotPrimed)
    );
    assert_eq!(
        guard.should_invoke_vision_model("com.apple.Safari", "", true),
        Some(SkipVisionModelReason::NotPrimed)
    );
    // The primed chance was consumed: the next stable sample only re-primes.
    assert_eq!(
        guard.should_invoke_vision_model("com.apple.Safari", "", false),
        Some(SkipVisionModelReason::NotPrimed)
    );
}

#[test]
fn own_application_in_foreground_is_invalid_regardless_of_state() {
    let mut guard = FocusGuard::new_from_config(test_config(6, 0, false)).unwrap();
    // Prime the machine first.
    assert_eq!(
        guard.should_invoke_vision_model("com.google.Chrome", "", false),
        Some(SkipVisionModelReason::NotPrimed)
    );
    let evaluation = guard.evaluate_event(&event(png_bytes(16, 16, 128), false, "com.screentap-app.dev"), 0);
    assert_eq!(skip_reason(evaluation), SkipVisionModelReason::InvalidFrontmostApp);
}

#[test]
fn missing_value_foreground_is_invalid() {
    let mut guard = FocusGuard::new_from_config(test_config(6, 0, false)).unwrap();
    let evaluation = guard.evaluate_event(&event(png_bytes(16, 16, 128), false, "missing value"), 0);
    assert_eq!(skip_reason(evaluation), SkipVisionModelReason::InvalidFrontmostApp);
}

#[test]
fn dev_mode_short_circuits_before_any_cost() {
    let mut guard = FocusGuard::new_from_config(test_config(6, 0, true)).unwrap();
    assert_eq!(
        skip_reason(guard.evaluate_event(&event(png_bytes(16, 16, 128), false, "com.google.Chrome"), 0)),
        SkipVisionModelReason::NotPrimed
    );
    assert_eq!(
        skip_reason(guard.evaluate_event(&event(png_bytes(16, 16, 128), false, "com.google.Chrome"), 0)),
        SkipVisionModelReason::DevMode
    );
}

#[test]
fn unresizable_frame_skips_with_error() {
    let mut guard = FocusGuard::new_from_config(test_config(6, 0, false)).unwrap();
    assert_eq!(
        skip_reason(guard.evaluate_event(&event(vec![1, 2, 3], false, "com.google.Chrome"), 0)),
        SkipVisionModelReason::NotPrimed
    );
    assert_eq!(
        skip_reason(guard.evaluate_event(&event(vec![1, 2, 3], false, "com.google.Chrome"), 0)),
        SkipVisionModelReason::Error
    );
}

#[test]
fn distracted_score_surfaces_alert() {
    // Threshold 6, no dev mode, no cooldown; the foreground is unchanged
    // twice in a row, and the backend finds the worker distracted.
    let mut guard = FocusGuard::new_from_config(test_config(6, 0, false)).unwrap();
    let frame = png_bytes(32, 32, 200);
    assert_eq!(
        skip_reason(guard.evaluate_event(&event(frame.clone(), false, "com.google.Chrome"), 0)),
        SkipVisionModelReason::NotPrimed
    );
    let ready = match guard.evaluate_event(&event(frame, false, "com.google.Chrome"), 0) {
        EventEvaluation::Ready(ready) => ready,
        EventEvaluation::Skip(res) => panic!("expected inference, got {:?}", res),
    };
    assert!(ready.prompt.contains("Software Engineer"));
    assert!(ready.prompt.contains("Backend development"));
    let (result, alert) = guard.conclude_inference("3 - very distracted".to_string(), 42, "/tmp/frame.png", 0);
    assert!(result.invoked_vision_model);
    assert!(result.vision_model_success);
    assert_eq!(result.productivity_score, 3);
    assert_eq!(result.vision_model_descriptor, "OpenAI");
    assert_eq!(result.vision_model_response.as_deref(), Some("3 - very distracted"));
    let alert = alert.expect("a below-threshold score must surface an alert");
    assert_eq!(alert.screenshot_id, 42);
    assert_eq!(alert.productivity_score, 3);
    assert_eq!(alert.job_title, "Software Engineer");
}

#[test]
fn engaged_score_suppresses_alert() {
    // Same setup, but the backend finds the worker engaged.
    let mut guard = FocusGuard::new_from_config(test_config(6, 0, false)).unwrap();
    let frame = png_bytes(32, 32, 200);
    assert_eq!(
        skip_reason(guard.evaluate_event(&event(frame.clone(), false, "com.google.Chrome"), 0)),
        SkipVisionModelReason::NotPrimed
    );
    match guard.evaluate_event(&event(frame, false, "com.google.Chrome"), 0) {
        EventEvaluation::Ready(_) => {}
        EventEvaluation::Skip(res) => panic!("expected inference, got {:?}", res),
    }
    let (result, alert) = guard.conclude_inference("9, fully focused".to_string(), 42, "/tmp/frame.png", 0);
    assert!(result.invoked_vision_model);
    assert!(result.vision_model_success);
    assert_eq!(result.productivity_score, 9);
    assert!(alert.is_none());
}

#[test]
fn unparseable_response_is_invoked_but_failed() {
    let mut guard = FocusGuard::new_from_config(test_config(6, 0, false)).unwrap();
    let (result, alert) = guard.conclude_inference("no score at all".to_string(), 7, "/tmp/f.png", 5);
    assert!(result.invoked_vision_model);
    assert!(!result.vision_model_success);
    assert_eq!(result.productivity_score, -1);
    assert!(result.vision_model_response.is_none());
    assert!(alert.is_none());
}

#[test]
fn alert_cooldown_throttles_second_event_within_window() {
    // Cooldown of 100 seconds: two qualifying distraction events 20 seconds
    // apart yield exactly one alert.
    let mut guard = FocusGuard::new_from_config(test_config(6, 100, false)).unwrap();
    let frame_a = png_bytes(32, 32, 0);
    let frame_b = png_bytes(32, 32, 255);
    assert_eq!(
        skip_reason(guard.evaluate_event(&event(frame_a.clone(), false, "com.google.Chrome"), 0)),
        SkipVisionModelReason::NotPrimed
    );
    match guard.evaluate_event(&event(frame_a, false, "com.google.Chrome"), 0) {
        EventEvaluation::Ready(_) => {}
        EventEvaluation::Skip(res) => panic!("expected inference, got {:?}", res),
    }
    let (_, alert) = guard.conclude_inference("2".to_string(), 1, "/tmp/a.png", 0);
    assert!(alert.is_some());
    // Forget the stored fingerprint so that only the throttle decides.
    guard.previous_phash_opt = None;
    // Re-prime, then hit the throttle 20 seconds after the alert.
    assert_eq!(
        skip_reason(guard.evaluate_event(&event(frame_b.clone(), false, "com.google.Chrome"), 10)),
        SkipVisionModelReason::NotPrimed
    );
    assert_eq!(
        skip_reason(guard.evaluate_event(&event(frame_b, false, "com.google.Chrome"), 20)),
        SkipVisionModelReason::NotEnoughTimeElapsedSinceAlert
    );
}

#[test]
fn alert_cooldown_admits_second_event_after_window() {
    // Cooldown of 100 seconds: two qualifying distraction events 150 seconds
    // apart yield two alerts.
    let mut guard = FocusGuard::new_from_config(test_config(6, 100, false)).unwrap();
    let frame_a = png_bytes(32, 32, 0);
    let frame_b = png_bytes(32, 32, 255);
    assert_eq!(
        skip_reason(guard.evaluate_event(&event(frame_a.clone(), false, "com.google.Chrome"), 0)),
        SkipVisionModelReason::NotPrimed
    );
    match guard.evaluate_event(&event(frame_a, false, "com.google.Chrome"), 0) {
        EventEvaluation::Ready(_) => {}
        EventEvaluation::Skip(res) => panic!("expected inference, got {:?}", res),
    }
    let (_, first_alert) = guard.conclude_inference("2".to_string(), 1, "/tmp/a.png", 0);
    assert!(first_alert.is_some());
    // Forget the stored fingerprint so that only the throttle decides.
    guard.previous_phash_opt = None;
    assert_eq!(
        skip_reason(guard.evaluate_event(&event(frame_b.clone(), false, "com.google.Chrome"), 140)),
        SkipVisionModelReason::NotPrimed
    );
    match guard.evaluate_event(&event(frame_b, false, "com.google.Chrome"), 150) {
        EventEvaluation::Ready(_) => {}
        EventEvaluation::Skip(res) => panic!("expected inference, got {:?}", res),
    }
    let (_, second_alert) = guard.conclude_inference("2".to_string(), 2, "/tmp/b.png", 150);
    assert!(second_alert.is_some());
}

#[test]
fn exact_cooldown_boundary_admits_the_event() {
    let mut guard = FocusGuard::new_from_config(test_config(6, 100, false)).unwrap();
    let frame = png_bytes(32, 32, 0);
    assert_eq!(
        skip_reason(guard.evaluate_event(&event(frame.clone(), false, "com.google.Chrome"), 0)),
        SkipVisionModelReason::NotPrimed
    );
    match guard.evaluate_event(&event(frame, false, "com.google.Chrome"), 0) {
        EventEvaluation::Ready(_) => {}
        EventEvaluation::Skip(res) => panic!("expected inference, got {:?}", res),
    }
    let (_, alert) = guard.conclude_inference("1".to_string(), 1, "/tmp/a.png", 0);
    assert!(alert.is_some());
    // Forget the stored fingerprint so that only the throttle decides.
    guard.previous_phash_opt = None;
    let other = png_bytes(32, 32, 255);
    assert_eq!(
        skip_reason(guard.evaluate_event(&event(other.clone(), false, "com.google.Chrome"), 90)),
        SkipVisionModelReason::NotPrimed
    );
    // Exactly the cooldown apart: the event is admitted.
    match guard.evaluate_event(&event(other, false, "com.google.Chrome"), 100) {
        EventEvaluation::Ready(_) => {}
        EventEvaluation::Skip(res) => panic!("expected inference at the boundary, got {:?}", res),
    }
}

#[test]
fn identical_frame_is_skipped_as_duplicate() {
    // Two qualifying events with bit-identical frames: the first proceeds,
    // the second is deduplicated.
    let mut guard = FocusGuard::new_from_config(test_config(6, 0, false)).unwrap();
    let frame = png_bytes(32, 32, 77);
    assert_eq!(
        skip_reason(guard.evaluate_event(&event(frame.clone(), false, "com.google.Chrome"), 0)),
        SkipVisionModelReason::NotPrimed
    );
    match guard.evaluate_event(&event(frame.clone(), false, "com.google.Chrome"), 0) {
        EventEvaluation::Ready(_) => {}
        EventEvaluation::Skip(res) => panic!("expected inference, got {:?}", res),
    }
    assert_eq!(
        skip_reason(guard.evaluate_event(&event(frame.clone(), false, "com.google.Chrome"), 0)),
        SkipVisionModelReason::NotPrimed
    );
    assert_eq!(
        skip_reason(guard.evaluate_event(&event(frame, false, "com.google.Chrome"), 0)),
        SkipVisionModelReason::PerceptualHashDuplicate
    );
}

#[test]
fn identical_resized_frames_have_hamming_distance_zero() {
    let frame = png_bytes(32, 32, 77);
    let resized = screentap::imaging::resize_image(&frame, 50).expect("a valid frame resizes");
    let hash_one = screentap::phash::calculate_perceptual_hash(&resized).expect("a valid frame hashes");
    let hash_two = screentap::phash::calculate_perceptual_hash(&resized).expect("a valid frame hashes");
    assert_eq!(hash_one.len(), 128);
    assert_eq!(screentap::phash::hamming_distance(&hash_one, &hash_two), 0);
}

#[test]
fn phash_delta_refreshes_stored_fingerprint() {
    let mut guard = FocusGuard::new_from_config(test_config(6, 0, false)).unwrap();
    let frame = png_bytes(32, 32, 77);
    // No previous fingerprint: always proceed.
    assert!(guard.phash_delta_above_threshold(&frame, "/tmp/a.png"));
    // The same frame again: below the threshold now.
    assert!(!guard.phash_delta_above_threshold(&frame, "/tmp/a.png"));
}

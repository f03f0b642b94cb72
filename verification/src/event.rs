//! One capture event, produced by the acquisition layer once per tick and
//! consumed immediately by the decision engine.

use vstd::prelude::*;

verus! {

/// A capture event: the captured frame and what was in the foreground when
/// it was taken.
#[derive(Debug)]
pub struct FocusGuardCallbackEvent {
    /// The captured frame, PNG-encoded.
    pub png_data: Vec<u8>,
    /// Where the frame was stored on disk.
    pub png_image_path: String,
    /// The monotonically increasing identifier of the capture.
    pub screenshot_id: i64,
    /// The text extracted from the frame.
    pub ocr_text: String,
    /// The frontmost application's bundle identifier, or a sentinel when it
    /// could not be determined.
    pub frontmost_app: String,
    /// The frontmost browser tab's URL, empty when the foreground is not a
    /// browser.
    pub frontmost_browser_tab: String,
    /// Whether the foreground application or tab changed since the previous
    /// event.
    pub frontmost_app_or_tab_changed: bool,
}

} // verus!

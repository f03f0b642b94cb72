//! The plain data the timeline store works with: screenshot records as the
//! query layer returns them, the capture-save result, the audit record for
//! user feedback on an alert, and the id arithmetic of timeline browsing.

use vstd::prelude::*;
use std::collections::HashMap;
use crate::strfmt::i32_to_string;

verus! {

/// One screenshot record, as a timeline query returns it.
#[derive(Debug, Clone)]
pub struct ScreenshotRecord {
    /// The record's primary key.
    pub id: i32,
    /// When the screenshot was taken, in seconds.
    pub timestamp: i32,
    /// The text extracted from the screenshot.
    pub ocr_text: String,
    /// The fully qualified path of the screenshot file.
    pub file_path: String,
    /// The path of the video the screenshot was compacted into, empty while
    /// it still lives as its own file.
    pub mp4_file_path: String,
    /// The frame of the video holding this screenshot, `-1` while not yet
    /// compacted.
    pub mp4_frame_id: i32,
    /// The screenshot image, base64-encoded.
    pub base64_image: String,
}

impl ScreenshotRecord {
    /// The fully qualified path of the screenshot file.
    pub fn get_file_path(&self) -> (r: &str)
        ensures
            r@ == self.file_path@,
    {
        self.file_path.as_str()
    }

    /// The path of the video the screenshot was compacted into.
    pub fn get_mp4_file_path(&self) -> (r: &str)
        ensures
            r@ == self.mp4_file_path@,
    {
        self.mp4_file_path.as_str()
    }

    /// The frame of the video holding this screenshot.
    pub fn get_mp4_frame_id(&self) -> (r: i32)
        ensures
            r == self.mp4_frame_id,
    {
        self.mp4_frame_id
    }

    /// The screenshot image, base64-encoded.
    pub fn get_base64_image(&self) -> (r: &str)
        ensures
            r@ == self.base64_image@,
    {
        self.base64_image.as_str()
    }
}

/// One screenshot record as a map of field names to rendered field values,
/// for handing to a display layer.
pub fn screenshot_record_to_hashmap(record: &ScreenshotRecord) -> HashMap<String, String> {
    let mut map: HashMap<String, String> = HashMap::new();
    map.insert(String::from_str("id"), i32_to_string(record.id));
    map.insert(String::from_str("timestamp"), i32_to_string(record.timestamp));
    map.insert(String::from_str("ocr_text"), record.ocr_text.clone());
    map.insert(String::from_str("file_path"), record.file_path.clone());
    map.insert(String::from_str("mp4_file_path"), record.mp4_file_path.clone());
    map.insert(String::from_str("mp4_frame_id"), i32_to_string(record.mp4_frame_id));
    map.insert(String::from_str("base64_image"), record.base64_image.clone());
    map
}

/// A vector of screenshot records as field maps, one per record, in order.
pub fn create_hashmap_vector(records: &Vec<ScreenshotRecord>) -> (r: Vec<HashMap<String, String>>)
    ensures
        r@.len() == records@.len(),
{
    let mut maps: Vec<HashMap<String, String>> = Vec::new();
    let mut i: usize = 0;
    let len = records.len();
    while i < len
        invariant
            i <= len,
            len == records@.len(),
            maps@.len() == i,
        decreases len - i,
    {
        maps.push(screenshot_record_to_hashmap(&records[i]));
        i = i + 1;
    }
    maps
}

/// What saving one capture produced: the frame, its text, where it went and
/// its record id.
#[derive(Debug)]
pub struct ScreenshotSaveResult {
    /// The captured frame, PNG-encoded.
    pub png_data: Vec<u8>,
    /// The text extracted from the frame.
    pub ocr_text: String,
    /// Where the frame was stored.
    pub png_image_path: String,
    /// The record id the store assigned.
    pub screenshot_id: i64,
}

/// The audit record for one piece of user feedback on a shown alert,
/// keyed by the screenshot and holding the preserved image copy.
#[derive(Debug, Clone)]
pub struct DistractionFeedback {
    /// The capture the alert was about.
    pub screenshot_id: i64,
    /// One when the user liked the alert, zero otherwise.
    pub user_rating: i32,
    /// Where the preserved copy of the offending frame lives.
    pub file_path: String,
    /// The worker's job title at the time of the alert.
    pub job_title: String,
    /// The worker's job role at the time of the alert.
    pub job_role: String,
}

/// Build the audit record for one piece of user feedback on a shown alert.
pub fn distraction_feedback(
    liked: bool,
    screenshot_id: i64,
    file_path: String,
    job_title: String,
    job_role: String,
) -> (r: DistractionFeedback)
    ensures
        r.user_rating == if liked {
            1int
        } else {
            0int
        },
        r.screenshot_id == screenshot_id,
        r.file_path == file_path,
        r.job_title == job_title,
        r.job_role == job_role,
{
    DistractionFeedback {
        screenshot_id,
        user_rating: if liked {
            1
        } else {
            0
        },
        file_path,
        job_title,
        job_role,
    }
}

/// The record id one browsing step lands on: the next id forward, the
/// previous one backward, and the same id for an exact lookup or any other
/// direction.
pub fn browse_target_id(cur_id: i32, direction: &str) -> (r: i32)
    requires
        i32::MIN < cur_id < i32::MAX,
    ensures
        direction@ == "forward"@ ==> r == cur_id + 1,
        direction@ == "backward"@ ==> r == cur_id - 1,
        direction@ != "forward"@ && direction@ != "backward"@ ==> r == cur_id,
{
    proof {
        reveal_strlit("forward");
        reveal_strlit("backward");
        assert("forward"@.len() == 7);
        assert("backward"@.len() == 8);
    }
    if crate::strutil::str_eq(direction, "forward") {
        cur_id + 1
    } else if crate::strutil::str_eq(direction, "backward") {
        cur_id - 1
    } else {
        cur_id
    }
}

} // verus!

use screentap::records::{
    browse_target_id, create_hashmap_vector, distraction_feedback, screenshot_record_to_hashmap,
    ScreenshotRecord,
};

fn sample_record() -> ScreenshotRecord {
    ScreenshotRecord {
        id: 12,
        timestamp: 1700000000,
        ocr_text: "hello world".to_string(),
        file_path: "/data/2024_02_15_10_24_53.png".to_string(),
        mp4_file_path: "/data/archive.mp4".to_string(),
        mp4_frame_id: -1,
        base64_image: "aGVsbG8=".to_string(),
    }
}

#[test]
fn getters_return_the_fields() {
    let record = sample_record();
    assert_eq!(record.get_file_path(), "/data/2024_02_15_10_24_53.png");
    assert_eq!(record.get_mp4_file_path(), "/data/archive.mp4");
    assert_eq!(record.get_mp4_frame_id(), -1);
    assert_eq!(record.get_base64_image(), "aGVsbG8=");
}

#[test]
fn record_maps_to_its_fields() {
    let map = screenshot_record_to_hashmap(&sample_record());
    assert_eq!(map.len(), 7);
    assert_eq!(map.get("id").map(String::as_str), Some("12"));
    assert_eq!(map.get("timestamp").map(String::as_str), Some("1700000000"));
    assert_eq!(map.get("ocr_text").map(String::as_str), Some("hello world"));
    assert_eq!(
        map.get("file_path").map(String::as_str),
        Some("/data/2024_02_15_10_24_53.png")
    );
    assert_eq!(map.get("mp4_file_path").map(String::as_str), Some("/data/archive.mp4"));
    assert_eq!(map.get("mp4_frame_id").map(String::as_str), Some("-1"));
    assert_eq!(map.get("base64_image").map(String::as_str), Some("aGVsbG8="));
}

#[test]
fn hashmap_vector_has_one_map_per_record() {
    let records = vec![sample_record(), sample_record(), sample_record()];
    let maps = create_hashmap_vector(&records);
    assert_eq!(maps.len(), 3);
    assert_eq!(maps[2].get("id").map(String::as_str), Some("12"));
}

#[test]
fn feedback_maps_liked_to_rating() {
    let liked = distraction_feedback(true, 9, "/d/a.png".to_string(), "t".to_string(), "r".to_string());
    assert_eq!(liked.user_rating, 1);
    assert_eq!(liked.screenshot_id, 9);
    let disliked = distraction_feedback(false, 9, "/d/a.png".to_string(), "t".to_string(), "r".to_string());
    assert_eq!(disliked.user_rating, 0);
}

#[test]
fn browsing_moves_by_direction() {
    assert_eq!(browse_target_id(10, "forward"), 11);
    assert_eq!(browse_target_id(10, "backward"), 9);
    assert_eq!(browse_target_id(10, "exact"), 10);
    assert_eq!(browse_target_id(10, "sideways"), 10);
}

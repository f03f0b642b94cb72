use screentap::imaging::{resize_image, scaled_dimension};

fn png_bytes(width: u32, height: u32) -> Vec<u8> {
    let img = image::ImageBuffer::from_pixel(width, height, image::Rgba([10u8, 20, 30, 255]));
    let dynimg = image::DynamicImage::ImageRgba8(img);
    let mut out: Vec<u8> = Vec::new();
    dynimg
        .write_to(&mut std::io::Cursor::new(&mut out), image::ImageFormat::Png)
        .expect("encoding a test image cannot fail");
    out
}

#[test]
fn dimensions_scale_by_percent() {
    assert_eq!(scaled_dimension(100, 50), 50);
    assert_eq!(scaled_dimension(99, 10), 9);
    assert_eq!(scaled_dimension(3, 10), 1);
    assert_eq!(scaled_dimension(0, 50), 1);
    assert_eq!(scaled_dimension(4096, 100), 4096);
}

#[test]
fn resized_frame_is_smaller() {
    let frame = png_bytes(64, 32);
    let resized = resize_image(&frame, 50).expect("a valid frame resizes");
    let img = image::load_from_memory(&resized).expect("the resized bytes are a valid image");
    let dims = image::GenericImageView::dimensions(&img);
    assert_eq!(dims, (32, 16));
}

#[test]
fn invalid_bytes_do_not_resize() {
    assert!(resize_image(&vec![0, 1, 2, 3], 50).is_none());
}

#[test]
fn model_name_membership_is_found() {
    let names = vec!["llama3".to_string(), "llava:7b-v1.6-mistral-q5_0".to_string()];
    assert!(screentap::ollama::contains_model_name(&names, "llava:7b-v1.6-mistral-q5_0"));
    assert!(!screentap::ollama::contains_model_name(&names, "llava"));
    assert!(!screentap::ollama::contains_model_name(&Vec::new(), "llama3"));
}

#[test]
fn empty_input_encodes_to_empty_base64() {
    let payload = screentap::backend::build_openai_payload("m", "p", &screentap::encoding::encode_base64(&Vec::new()));
    let text = String::from_utf8(payload).expect("the payload is UTF-8");
    assert!(text.contains("data:image/jpeg;base64,\"}}]}]"));
}

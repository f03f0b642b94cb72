use base64::engine::Engine as _;
use screentap::backend::{
    build_openai_payload, create_prompt, subprocess_full_prompt, LlavaBackendType,
};
use screentap::openai::extract_content_openai_response;

#[test]
fn backend_names_round_trip() {
    for name in ["OpenAI", "LlamaFile", "LlamaFileSubprocess", "Ollama"] {
        let backend = LlavaBackendType::from_str(name).expect("a known backend name parses");
        assert_eq!(backend.name(), name);
    }
}

#[test]
fn unknown_backend_name_is_rejected() {
    assert!(LlavaBackendType::from_str("Mistral").is_err());
    assert!(LlavaBackendType::from_str("").is_err());
    assert!(LlavaBackendType::from_str("openai").is_err());
}

#[test]
fn model_names_match_backends() {
    assert_eq!(LlavaBackendType::OpenAI.model_name(), "gpt-4-vision-preview");
    assert_eq!(LlavaBackendType::LlamaFile.model_name(), "LLaMA_CPP");
    assert_eq!(LlavaBackendType::LlamaFileSubprocess.model_name(), "LLaMA_CPP");
}

#[test]
fn target_urls_match_backends() {
    assert_eq!(
        LlavaBackendType::OpenAI.target_url(),
        "https://api.openai.com/v1/chat/completions"
    );
    assert_eq!(
        LlavaBackendType::LlamaFile.target_url(),
        "http://localhost:8080/v1/chat/completions"
    );
}

#[test]
fn prompt_substitutes_title_and_role() {
    let prompt = create_prompt("Data Analyst", "Reporting");
    assert!(prompt.contains("job title of \"Data Analyst\""));
    assert!(prompt.contains("job role of \"Reporting\""));
    assert!(prompt.starts_with("On a scale of 1 to 10"));
    assert!(prompt.contains("square brackets"));
}

#[test]
fn subprocess_prompt_wraps_dialogue_markers() {
    let full = subprocess_full_prompt("how engaged?");
    assert_eq!(full, "### User: how engaged?\n ### Assistant:");
}

#[test]
fn payload_inlines_base64_image() {
    let image: Vec<u8> = vec![1, 2, 3, 4, 5];
    let b64 = base64::engine::general_purpose::STANDARD.encode(&image);
    let payload = build_openai_payload("gpt-4-vision-preview", "how engaged?", &b64.clone().into_bytes());
    let text = String::from_utf8(payload).expect("the payload is UTF-8");
    assert!(text.contains(&format!("data:image/jpeg;base64,{}", b64)));
    assert!(text.starts_with("{\"model\":\"gpt-4-vision-preview\""));
    assert!(text.ends_with("\"max_tokens\":4096}"));
    // The payload is well-formed JSON with the expected shape.
    let parsed: serde_json::Value = serde_json::from_str(&text).expect("the payload parses");
    assert_eq!(parsed["model"], "gpt-4-vision-preview");
    assert_eq!(parsed["messages"][0]["role"], "user");
    assert_eq!(parsed["messages"][0]["content"][0]["text"], "how engaged?");
    assert_eq!(parsed["max_tokens"], 4096);
}

#[test]
fn payload_escapes_quotes_and_newlines_in_prompt() {
    let prompt = "a \"quoted\" line\nand a \\ backslash";
    let payload = build_openai_payload("m", prompt, &Vec::new());
    let text = String::from_utf8(payload).expect("the payload is UTF-8");
    let parsed: serde_json::Value = serde_json::from_str(&text).expect("the payload parses");
    assert_eq!(parsed["messages"][0]["content"][0]["text"], prompt);
}

#[test]
fn payload_escapes_control_bytes() {
    let prompt = "tab\there, bell\u{0007}there";
    let payload = build_openai_payload("m", prompt, &Vec::new());
    let text = String::from_utf8(payload).expect("the payload is UTF-8");
    assert!(text.contains("tab\\there"));
    assert!(text.contains("bell\\u0007there"));
    let parsed: serde_json::Value = serde_json::from_str(&text).expect("the payload parses");
    assert_eq!(parsed["messages"][0]["content"][0]["text"], prompt);
}

#[test]
fn content_is_extracted_from_chat_response() {
    let body = "{\"choices\":[{\"message\":{\"content\":\"[3] distracted\"}}]}";
    assert_eq!(extract_content_openai_response(body), "[3] distracted");
}

#[test]
fn missing_choices_yield_empty_content() {
    assert_eq!(extract_content_openai_response("{\"error\":\"quota\"}"), "");
    assert_eq!(extract_content_openai_response("{\"choices\":[]}"), "");
    assert_eq!(extract_content_openai_response("not json at all"), "");
    assert_eq!(
        extract_content_openai_response("{\"choices\":[{\"message\":{}}]}"),
        ""
    );
    assert_eq!(
        extract_content_openai_response("{\"choices\":[{\"message\":{\"content\":7}}]}"),
        ""
    );
}

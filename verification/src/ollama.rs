//! The transport for the local model-server backend: trusted wrappers around
//! its client, and the verified decision of whether the model file must be
//! fetched before the first inference.

use vstd::prelude::*;
use crate::strutil::str_eq;

verus! {

/// List the names of the models the local server already has, or `None` when
/// the server cannot be reached.
///
/// Relies on `ollama_rs::Ollama::default` and `list_local_models`, run to
/// completion on a fresh tokio runtime; each listed model's `name` field is
/// returned.
#[verifier::external_body]
fn ollama_list_local_model_names() -> (r: Option<Vec<String>>) {
    let client = ollama_rs::Ollama::default();
    let rt = match tokio::runtime::Runtime::new() {
        Ok(rt) => rt,
        Err(_) => return None,
    };
    match rt.block_on(client.list_local_models()) {
        Ok(models) => Some(models.into_iter().map(|m| m.name).collect()),
        Err(_) => None,
    }
}

/// Ask the local server to pull a model; true on success.
///
/// Relies on `ollama_rs::Ollama::default` and `pull_model`, run to
/// completion on a fresh tokio runtime.
#[verifier::external_body]
fn ollama_pull_model(model_name: &str) -> (r: bool) {
    let client = ollama_rs::Ollama::default();
    let rt = match tokio::runtime::Runtime::new() {
        Ok(rt) => rt,
        Err(_) => return false,
    };
    rt.block_on(client.pull_model(model_name.to_owned(), true)).is_ok()
}

/// Run one completion against the local server with an inlined base64 image,
/// or `None` when the server cannot be reached or refuses the request.
///
/// Relies on `ollama_rs`'s `GenerationRequest::new` with `add_image` of an
/// `Image::from_base64`, and `Ollama::generate`, run to completion on a
/// fresh tokio runtime; the response's `response` text is returned.
#[verifier::external_body]
pub fn ollama_generate(model_name: &str, prompt: &str, image_b64: Vec<u8>) -> (r: Option<String>) {
    let client = ollama_rs::Ollama::default();
    let rt = tokio::runtime::Runtime::new().ok()?;
    let b64_text = String::from_utf8(image_b64).ok()?;
    let image = ollama_rs::generation::images::Image::from_base64(b64_text);
    let request = ollama_rs::generation::completion::request::GenerationRequest::new(
        model_name.to_owned(),
        prompt.to_owned(),
    ).add_image(image);
    rt.block_on(client.generate(request)).ok().map(|response| response.response)
}

/// A list of model names contains the given name.
pub fn contains_model_name(names: &Vec<String>, target: &str) -> (r: bool)
    ensures
        r == exists|i: int| 0 <= i < names@.len() && names@[i]@ == target@,
{
    let mut i: usize = 0;
    let len = names.len();
    while i < len
        invariant
            i <= len,
            len == names@.len(),
            forall|j: int| 0 <= j < i ==> names@[j]@ != target@,
        decreases len - i,
    {
        if str_eq(names[i].as_str(), target) {
            return true;
        }
        i = i + 1;
    }
    false
}

/// Ask the local server to pull the model; true on success.
pub fn download_ollama_model(model_name: &str) -> (r: bool) {
    ollama_pull_model(model_name)
}

/// Make sure the local server has the model: keep it when it is already
/// present, fetch it otherwise.  True when the model is available afterward.
pub fn download_ollama_model_if_missing(model_name: &str) -> (r: bool) {
    match ollama_list_local_model_names() {
        Some(names) => {
            if contains_model_name(&names, model_name) {
                true
            } else {
                download_ollama_model(model_name)
            }
        },
        None => false,
    }
}

/// The model the local server is asked to run.
pub fn ollama_model_name() -> (r: String)
    ensures
        r@ == "llava:7b-v1.6-mistral-q5_0"@,
{
    String::from_str("llava:7b-v1.6-mistral-q5_0")
}

/// Run one completion against the local server, fetching the model first
/// when it is missing: the response text, or the empty string when the model
/// cannot be made available or the server refuses.
pub fn invoke_ollama_vision_model(prompt: &str, image_b64: Vec<u8>) -> (r: String) {
    let model = ollama_model_name();
    if !download_ollama_model_if_missing(model.as_str()) {
        return String::new();
    }
    match ollama_generate(model.as_str(), prompt, image_b64) {
        Some(response) => response,
        None => String::new(),
    }
}

} // verus!

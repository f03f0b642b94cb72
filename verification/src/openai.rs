//! The transport for the chat-style HTTP backends: a trusted wrapper around
//! the blocking HTTP client, and the extraction of the completion text from
//! a chat-style JSON response.

use vstd::prelude::*;

verus! {

/// The `content` string of the first choice's message in a chat-style JSON
/// response, as serde_json reads it: a function of the response text alone;
/// nothing when the text is not JSON, has no first choice, or the content is
/// not a string.
pub uninterp spec fn openai_content_of(response: Seq<char>) -> Option<Seq<char>>;

/// Send a JSON request body to a chat-style endpoint and return the response
/// body text, or `None` when the request cannot be sent or the body cannot
/// be read.
///
/// Relies on `reqwest::blocking::Client`: `post`, `header`, `body`, `send`
/// and `Response::text`.
#[verifier::external_body]
pub fn http_post_json(url: &str, authorization: &str, body: Vec<u8>) -> (r: Option<String>) {
    let client = reqwest::blocking::Client::new();
    let sent = client
        .post(url)
        .header("content-type", "application/json")
        .header("authorization", authorization)
        .body(body)
        .send();
    match sent {
        Ok(response) => response.text().ok(),
        Err(_) => None,
    }
}

/// Navigate a chat-style JSON response to the first choice's message
/// content.
///
/// Relies on `serde_json::from_str`, `Value::get` and `Value::as_str`: all
/// are deterministic in the text, so the outcome is a function of the
/// response text alone.
#[verifier::external_body]
fn chat_response_content(response_text: &str) -> (r: Option<String>)
    ensures
        r is Some <==> openai_content_of(response_text@) is Some,
        r matches Some(content) ==> openai_content_of(response_text@) == Some(content@),
{
    let parsed: serde_json::Value = serde_json::from_str(response_text).ok()?;
    let content = parsed.get("choices")?.get(0)?.get("message")?.get("content")?;
    content.as_str().map(|s| s.to_owned())
}

/// Extract the completion text from a chat-style JSON response: the
/// `content` string of the first choice's message.  Any missing or
/// ill-shaped part yields the empty string, which the response parser then
/// treats as unparseable.
pub fn extract_content_openai_response(response_text: &str) -> (r: String)
    ensures
        r@ == match openai_content_of(response_text@) {
            Some(content) => content,
            None => Seq::<char>::empty(),
        },
{
    match chat_response_content(response_text) {
        Some(content) => content,
        None => String::new(),
    }
}

} // verus!

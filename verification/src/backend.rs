//! The closed set of vision-model backends, and the verified construction of
//! the inference prompt and of the chat-style JSON request body.

use vstd::prelude::*;
use crate::encoding::{append_json_escaped, json_escaped_bytes};
use crate::strutil::str_eq;
use vstd::string::StringSliceAdditionalSpecFns;

verus! {

/// The vision-model backends the engine can be configured with.
#[derive(Debug, Clone, Copy, PartialEq, Eq, Structural)]
pub enum LlavaBackendType {
    /// A remote multimodal HTTP API; requires a credential.
    OpenAI,
    /// A local HTTP daemon speaking the same chat-style protocol.
    LlamaFile,
    /// A bundled model executable invoked as a child process per request.
    LlamaFileSubprocess,
    /// A local model server with its own request shape.
    Ollama,
}

impl LlavaBackendType {
    /// Parse a backend identifier from its configuration name.
    pub fn from_str(input: &str) -> (r: Result<LlavaBackendType, ()>)
        ensures
            input@ == "OpenAI"@ ==> r == Result::<LlavaBackendType, ()>::Ok(
                LlavaBackendType::OpenAI,
            ),
            input@ == "LlamaFile"@ ==> r == Result::<LlavaBackendType, ()>::Ok(
                LlavaBackendType::LlamaFile,
            ),
            input@ == "LlamaFileSubprocess"@ ==> r == Result::<LlavaBackendType, ()>::Ok(
                LlavaBackendType::LlamaFileSubprocess,
            ),
            input@ == "Ollama"@ ==> r == Result::<LlavaBackendType, ()>::Ok(
                LlavaBackendType::Ollama,
            ),
            input@ != "OpenAI"@ && input@ != "LlamaFile"@ && input@ != "LlamaFileSubprocess"@
                && input@ != "Ollama"@ ==> r == Result::<LlavaBackendType, ()>::Err(()),
    {
        proof {
            reveal_strlit("OpenAI");
            reveal_strlit("LlamaFile");
            reveal_strlit("LlamaFileSubprocess");
            reveal_strlit("Ollama");
            assert("OpenAI"@.len() == 6);
            assert("LlamaFile"@.len() == 9);
            assert("LlamaFileSubprocess"@.len() == 19);
            assert("Ollama"@.len() == 6);
            assert("OpenAI"@[1] == 'p' && "Ollama"@[1] == 'l');
        }
        if str_eq(input, "OpenAI") {
            Ok(LlavaBackendType::OpenAI)
        } else if str_eq(input, "LlamaFile") {
            Ok(LlavaBackendType::LlamaFile)
        } else if str_eq(input, "LlamaFileSubprocess") {
            Ok(LlavaBackendType::LlamaFileSubprocess)
        } else if str_eq(input, "Ollama") {
            Ok(LlavaBackendType::Ollama)
        } else {
            Err(())
        }
    }

    /// The display name of the backend.
    pub fn name(&self) -> (r: String)
        ensures
            r@ == spec_backend_name(*self),
    {
        match self {
            LlavaBackendType::OpenAI => String::from_str("OpenAI"),
            LlavaBackendType::LlamaFile => String::from_str("LlamaFile"),
            LlavaBackendType::LlamaFileSubprocess => String::from_str("LlamaFileSubprocess"),
            LlavaBackendType::Ollama => String::from_str("Ollama"),
        }
    }

    /// The model name sent in a chat-style request for this backend.
    pub fn model_name(&self) -> (r: &'static str)
        ensures
            r@ == spec_model_name(*self),
    {
        match self {
            LlavaBackendType::OpenAI => "gpt-4-vision-preview",
            LlavaBackendType::LlamaFile => "LLaMA_CPP",
            LlavaBackendType::LlamaFileSubprocess => "LLaMA_CPP",
            LlavaBackendType::Ollama => "TBD",
        }
    }

    /// The endpoint a chat-style request is sent to.  Only the two HTTP
    /// chat-style backends have one.
    pub fn target_url(&self) -> (r: &'static str)
        requires
            *self == LlavaBackendType::OpenAI || *self == LlavaBackendType::LlamaFile,
        ensures
            *self == LlavaBackendType::OpenAI ==> r@ == "https://api.openai.com/v1/chat/completions"@,
            *self == LlavaBackendType::LlamaFile ==> r@ == "http://localhost:8080/v1/chat/completions"@,
    {
        match self {
            LlavaBackendType::OpenAI => "https://api.openai.com/v1/chat/completions",
            _ => "http://localhost:8080/v1/chat/completions",
        }
    }
}

/// The display name of a backend.
pub open spec fn spec_backend_name(b: LlavaBackendType) -> Seq<char> {
    match b {
        LlavaBackendType::OpenAI => "OpenAI"@,
        LlavaBackendType::LlamaFile => "LlamaFile"@,
        LlavaBackendType::LlamaFileSubprocess => "LlamaFileSubprocess"@,
        LlavaBackendType::Ollama => "Ollama"@,
    }
}

/// The model name sent in a chat-style request.
pub open spec fn spec_model_name(b: LlavaBackendType) -> Seq<char> {
    match b {
        LlavaBackendType::OpenAI => "gpt-4-vision-preview"@,
        LlavaBackendType::LlamaFile => "LLaMA_CPP"@,
        LlavaBackendType::LlamaFileSubprocess => "LLaMA_CPP"@,
        LlavaBackendType::Ollama => "TBD"@,
    }
}

/// The inference prompt: the scoring instructions with the worker's job
/// title and job role substituted in.
pub open spec fn spec_prompt(title: Seq<char>, role: Seq<char>) -> Seq<char> {
    "On a scale of 1 to 10, with 1 indicating the least amount of engagement and 10 indicating the most amount of engagement, how much does this screenshot indicate a worker with job title of \""@
        + title
        + "\" and job role of \""@
        + role
        + "\" is currently engaged in work activities? When analyzing the screenshots, please note that: * In many apps such as VS Code and Slack, the project name is often displayed in the top left corner in a slightly larger font than the rest of the text, and the project name should be considered very important when determining the result. First provide the raw score as a number between 1 and 10 in square brackets, followed by an explanation of your reasoning."@
}

/// Build the inference prompt for a worker's job title and job role.
pub fn create_prompt(job_title: &str, job_role: &str) -> (r: String)
    ensures
        r@ == spec_prompt(job_title@, job_role@),
{
    let mut p = String::new();
    p.append(
        "On a scale of 1 to 10, with 1 indicating the least amount of engagement and 10 indicating the most amount of engagement, how much does this screenshot indicate a worker with job title of \"",
    );
    p.append(job_title);
    p.append("\" and job role of \"");
    p.append(job_role);
    p.append(
        "\" is currently engaged in work activities? When analyzing the screenshots, please note that: * In many apps such as VS Code and Slack, the project name is often displayed in the top left corner in a slightly larger font than the rest of the text, and the project name should be considered very important when determining the result. First provide the raw score as a number between 1 and 10 in square brackets, followed by an explanation of your reasoning.",
    );
    p
}

/// The prompt as the subprocess backend's command line expects it.
pub open spec fn spec_subprocess_prompt(prompt: Seq<char>) -> Seq<char> {
    "### User: "@ + prompt + "\n ### Assistant:"@
}

/// Wrap a prompt in the dialogue markers the subprocess backend expects.
pub fn subprocess_full_prompt(prompt: &str) -> (r: String)
    ensures
        r@ == spec_subprocess_prompt(prompt@),
{
    let mut p = String::new();
    p.append("### User: ");
    p.append(prompt);
    p.append("\n ### Assistant:");
    p
}

/// The chat-style JSON request body: one user message holding the prompt
/// text and the image inlined as a base64 data URL, with the model and
/// prompt escaped as JSON string literals.
pub open spec fn spec_openai_payload(model: Seq<u8>, prompt: Seq<u8>, b64: Seq<u8>) -> Seq<u8> {
    ("{\"model\":\"").spec_bytes() + json_escaped_bytes(model)
        + ("\",\"messages\":[{\"role\":\"user\",\"content\":[{\"type\":\"text\",\"text\":\"").spec_bytes()
        + json_escaped_bytes(prompt)
        + ("\"},{\"type\":\"image_url\",\"image_url\":{\"url\":\"data:image/jpeg;base64,").spec_bytes()
        + b64 + ("\"}}]}],\"max_tokens\":4096}").spec_bytes()
}

/// Build the chat-style JSON request body for a prompt and a base64-encoded
/// image.
pub fn build_openai_payload(model: &str, prompt: &str, image_b64: &Vec<u8>) -> (r: Vec<u8>)
    ensures
        r@ == spec_openai_payload(model.spec_bytes(), prompt.spec_bytes(), image_b64@),
{
    let mut out: Vec<u8> = Vec::new();
    out.extend_from_slice(("{\"model\":\"").as_bytes());
    let model_bytes = model.as_bytes_vec();
    append_json_escaped(&mut out, &model_bytes);
    out.extend_from_slice(
        ("\",\"messages\":[{\"role\":\"user\",\"content\":[{\"type\":\"text\",\"text\":\"").as_bytes(),
    );
    let prompt_bytes = prompt.as_bytes_vec();
    append_json_escaped(&mut out, &prompt_bytes);
    out.extend_from_slice(
        ("\"},{\"type\":\"image_url\",\"image_url\":{\"url\":\"data:image/jpeg;base64,").as_bytes(),
    );
    out.extend_from_slice(image_b64.as_slice());
    out.extend_from_slice(("\"}}]}],\"max_tokens\":4096}").as_bytes());
    proof {
        assert(out@ =~= spec_openai_payload(
            model.spec_bytes(),
            prompt.spec_bytes(),
            image_b64@,
        ));
    }
    out
}

} // verus!

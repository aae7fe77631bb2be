//! The parts of a Gemini chat exchange that do not touch the network: where
//! the request goes, what it says, which key it carries, and what is read
//! back from the reply.

use vstd::prelude::*;
use vstd::string::StringExecFns;

verus! {

/// Where the Gemini models are served.
pub const GEMINI_API_BASE_URL: &'static str = "https://generativelanguage.googleapis.com/v1beta/models";

/// Why a chat exchange could not go on.
#[derive(Debug, Clone, Copy, PartialEq, Eq, Structural)]
pub enum AiError {
    /// No key was given, neither directly nor in the environment.
    MissingApiKey,
    /// The reply holds no candidate answer.
    NoCandidates,
    /// The first candidate answer holds no part.
    NoContent,
}

impl AiError {
    /// The text that `message` gives.
    pub open spec fn spec_message(self) -> Seq<char> {
        match self {
            AiError::MissingApiKey => "API key not provided. Please set GEMINI_API_KEY environment variable or use --api-key parameter"@,
            AiError::NoCandidates => "No candidates in API response"@,
            AiError::NoContent => "No content in API response"@,
        }
    }

    /// A short description of the error.
    pub fn message(&self) -> (r: &'static str)
        ensures
            r@ == self.spec_message(),
    {
        match self {
            AiError::MissingApiKey => "API key not provided. Please set GEMINI_API_KEY environment variable or use --api-key parameter",
            AiError::NoCandidates => "No candidates in API response",
            AiError::NoContent => "No content in API response",
        }
    }
}

/// One piece of text in a request.
pub struct Part {
    pub text: String,
}

/// One message of a request.
pub struct Content {
    pub parts: Vec<Part>,
}

/// One piece of text in a reply.
pub struct ResponsePart {
    pub text: String,
}

/// The message of a candidate answer.
pub struct ResponseContent {
    pub parts: Vec<ResponsePart>,
}

/// One candidate answer.
pub struct Candidate {
    pub content: ResponseContent,
}

/// A reply of the generateContent endpoint.
pub struct GeminiResponse {
    pub candidates: Vec<Candidate>,
}

/// The address of the generateContent endpoint of `model`.
pub fn gemini_api_url(model: &str) -> (r: String)
    ensures
        r@ == GEMINI_API_BASE_URL@ + "/"@ + model@ + ":generateContent"@,
{
    let mut url = String::from_str(GEMINI_API_BASE_URL);
    url.append("/");
    url.append(model);
    url.append(":generateContent");
    url
}

/// The messages of a request that sends `prompt` alone.
pub fn user_contents(prompt: &str) -> (r: Vec<Content>)
    ensures
        r@.len() == 1,
        r@[0].parts@.len() == 1,
        r@[0].parts@[0].text@ == prompt@,
{
    let mut parts: Vec<Part> = Vec::new();
    parts.push(Part { text: String::from_str(prompt) });
    let mut contents: Vec<Content> = Vec::new();
    contents.push(Content { parts });
    contents
}

/// The key to send: the one given, else the one from the environment.
pub fn resolve_api_key(given: Option<String>, from_env: Option<String>) -> (r: Result<String, AiError>)
    ensures
        given is Some ==> r is Ok && r->Ok_0 == given->0,
        given is None && from_env is Some ==> r is Ok && r->Ok_0 == from_env->0,
        given is None && from_env is None ==> r == Err::<String, AiError>(AiError::MissingApiKey),
{
    match given {
        Some(k) => Ok(k),
        None => match from_env {
            Some(k) => Ok(k),
            None => Err(AiError::MissingApiKey),
        },
    }
}

/// The text of the first part of the first candidate answer.
pub fn first_response_text(response: &GeminiResponse) -> (r: Result<String, AiError>)
    ensures
        response.candidates@.len() == 0 ==> r == Err::<String, AiError>(AiError::NoCandidates),
        response.candidates@.len() > 0 && response.candidates@[0].content.parts@.len() == 0 ==> r
            == Err::<String, AiError>(AiError::NoContent),
        response.candidates@.len() > 0 && response.candidates@[0].content.parts@.len() > 0 ==> r
            is Ok && r->Ok_0@ == response.candidates@[0].content.parts@[0].text@,
{
    if response.candidates.len() == 0 {
        return Err(AiError::NoCandidates);
    }
    let candidate = &response.candidates[0];
    if candidate.content.parts.len() == 0 {
        return Err(AiError::NoContent);
    }
    Ok(candidate.content.parts[0].text.clone())
}

} // verus!

//! The assistant chat rules: validating the message, assembling the
//! prompt, and turning whatever the completion service sent back into a
//! reply string, with a canned fallback for every failure mode.
//!
//! The service response is a JSON document; it is read through
//! `serde_json` behind the trusted items below, and the choice of reply
//! is verified for every extraction outcome.

use vstd::prelude::*;

verus! {

/// Declares `serde_json::Value` so that signatures here can carry it;
/// the value is opaque to the verifier.
#[verifier::external_type_specification]
#[verifier::external_body]
pub struct ExValue(serde_json::Value);

/// Relies on `serde_json::from_str::<Value>`: parses one JSON document,
/// or fails; the parse error itself is not used.
#[verifier::external_body]
fn parse_json(body: &str) -> (r: Option<serde_json::Value>) {
    serde_json::from_str::<serde_json::Value>(body).ok()
}

/// Relies on `serde_json::Value::get` with a string index: the field of
/// a JSON object, `None` on a missing key or a non-object.
#[verifier::external_body]
fn value_get<'a>(v: &'a serde_json::Value, key: &str) -> (r: Option<&'a serde_json::Value>) {
    v.get(key)
}

/// Relies on `serde_json::Value::get` with a `usize` index: the element
/// of a JSON array, `None` out of bounds or on a non-array.
#[verifier::external_body]
fn value_at<'a>(v: &'a serde_json::Value, idx: usize) -> (r: Option<&'a serde_json::Value>) {
    v.get(idx)
}

/// Relies on `serde_json::Value::as_str`: the payload of a JSON string,
/// `None` on any other kind of value.
#[verifier::external_body]
fn value_str(v: &serde_json::Value) -> (r: Option<String>) {
    v.as_str().map(|s| s.to_string())
}

/// What to do with an inbound chat message.
#[derive(Clone, Debug)]
pub enum ChatPlan {
    /// The message is empty: refuse the request.
    Reject,
    /// No service key is configured: answer with the demo reply.
    Demo,
    /// Send this prompt to the completion service.
    CallApi {
        /// The instruction text with the user's question appended.
        prompt: String,
    },
}

/// The instruction text put in front of every forwarded question.
pub open spec fn spec_prompt_prefix() -> Seq<char> {
    "You are an AI education assistant on Yavin, a comprehensive AI learning platform. The user is learning about AI fundamentals, machine learning, neural networks, deep learning, modern AI systems, and ethics. Provide clear, educational, and encouraging responses. Keep answers concise but informative. User question: "@
}

/// Returns the instruction text put in front of every forwarded
/// question.
pub fn prompt_prefix() -> (r: &'static str)
    ensures
        r@ == spec_prompt_prefix(),
{
    "You are an AI education assistant on Yavin, a comprehensive AI learning platform. The user is learning about AI fundamentals, machine learning, neural networks, deep learning, modern AI systems, and ethics. Provide clear, educational, and encouraging responses. Keep answers concise but informative. User question: "
}

/// Decides what to do with a chat message: an empty message is
/// refused, a message without a configured key gets the demo reply, and
/// otherwise the prompt is the instruction text with the question
/// appended.
pub fn plan_chat(message: &str, has_api_key: bool) -> (r: ChatPlan)
    ensures
        message@.len() == 0 ==> r is Reject,
        message@.len() > 0 && !has_api_key ==> r is Demo,
        message@.len() > 0 && has_api_key ==> (r matches ChatPlan::CallApi { prompt } && prompt@
            == spec_prompt_prefix() + message@),
{
    if message.unicode_len() == 0 {
        return ChatPlan::Reject;
    }
    if !has_api_key {
        return ChatPlan::Demo;
    }
    let mut prompt = String::from_str(prompt_prefix());
    prompt.append(message);
    ChatPlan::CallApi { prompt }
}

/// The error sent back for an empty chat message.
pub fn chat_message_required() -> (r: &'static str)
    ensures
        r@ == "Message is required"@,
{
    "Message is required"
}

/// The demo reply used when no service key is configured.
pub fn demo_reply() -> (r: &'static str)
    ensures
        r@
            == "I'm the Yavin AI assistant! To enable me, please set your GEMINI_API_KEY environment variable in Render. For now, I can help you navigate this educational platform. What would you like to learn about AI?"@,
{
    "I'm the Yavin AI assistant! To enable me, please set your GEMINI_API_KEY environment variable in Render. For now, I can help you navigate this educational platform. What would you like to learn about AI?"
}

/// The reply used when the service answered with a failure status.
pub open spec fn spec_reply_service_error() -> Seq<char> {
    "I apologize, but I'm having trouble connecting to my AI brain. Please check that your API key is valid and try again."@
}

/// Returns the reply used when the service answered with a failure
/// status.
pub fn reply_service_error() -> (r: &'static str)
    ensures
        r@ == spec_reply_service_error(),
{
    "I apologize, but I'm having trouble connecting to my AI brain. Please check that your API key is valid and try again."
}

/// The reply used when the response parsed but held no reply text.
pub open spec fn spec_reply_missing_text() -> Seq<char> {
    "I apologize, but I received an unexpected response format. Please try rephrasing your question."@
}

/// The reply used when the response body was not JSON at all.
pub open spec fn spec_reply_unparseable() -> Seq<char> {
    "I received a response but couldn't understand the format. Please try again."@
}

/// The reply used when the service could not be reached.
pub fn reply_network_trouble() -> (r: &'static str)
    ensures
        r@
            == "I'm having trouble connecting to the AI service. Please check your internet connection and try again."@,
{
    "I'm having trouble connecting to the AI service. Please check your internet connection and try again."
}

/// The error sent back when the response body could not be read.
pub fn chat_read_failure() -> (r: &'static str)
    ensures
        r@ == "Failed to read AI response"@,
{
    "Failed to read AI response"
}

/// What reading the service response yielded.
#[derive(Clone, Debug)]
pub enum Extraction {
    /// The body was not a JSON document.
    Unparseable,
    /// The body parsed, but the expected reply text was not there.
    MissingText,
    /// The reply text the service produced.
    Text(String),
}

/// Reads the reply text out of a service response body: the first
/// candidate's first content part. What comes back depends on the
/// parser, so nothing is pinned here; `reply_for_extraction` says
/// exactly which reply each outcome produces.
pub fn extract_reply_text(body: &str) -> (r: Extraction) {
    let root = match parse_json(body) {
        None => {
            return Extraction::Unparseable;
        },
        Some(v) => v,
    };
    let candidates = match value_get(&root, "candidates") {
        None => {
            return Extraction::MissingText;
        },
        Some(v) => v,
    };
    let first = match value_at(candidates, 0) {
        None => {
            return Extraction::MissingText;
        },
        Some(v) => v,
    };
    let content = match value_get(first, "content") {
        None => {
            return Extraction::MissingText;
        },
        Some(v) => v,
    };
    let parts = match value_get(content, "parts") {
        None => {
            return Extraction::MissingText;
        },
        Some(v) => v,
    };
    let part = match value_at(parts, 0) {
        None => {
            return Extraction::MissingText;
        },
        Some(v) => v,
    };
    let text = match value_get(part, "text") {
        None => {
            return Extraction::MissingText;
        },
        Some(v) => v,
    };
    match value_str(text) {
        None => Extraction::MissingText,
        Some(s) => Extraction::Text(s),
    }
}

/// The reply each extraction outcome produces: the text itself when one
/// was found, the matching canned fallback otherwise.
pub fn reply_for_extraction(e: Extraction) -> (r: String)
    ensures
        match e {
            Extraction::Unparseable => r@ == spec_reply_unparseable(),
            Extraction::MissingText => r@ == spec_reply_missing_text(),
            Extraction::Text(t) => r@ == t@,
        },
{
    match e {
        Extraction::Unparseable => String::from_str(
            "I received a response but couldn't understand the format. Please try again.",
        ),
        Extraction::MissingText => String::from_str(
            "I apologize, but I received an unexpected response format. Please try rephrasing your question.",
        ),
        Extraction::Text(t) => t,
    }
}

/// Turns a service response into the reply to send: a failure status
/// gets the service-error reply whatever the body holds; a success
/// status gets the reply that `reply_for_extraction` assigns to what
/// `extract_reply_text` found in the body.
pub fn chat_reply(status_success: bool, body: &str) -> (r: String)
    ensures
        !status_success ==> r@ == spec_reply_service_error(),
{
    if !status_success {
        return String::from_str(reply_service_error());
    }
    let extraction = extract_reply_text(body);
    reply_for_extraction(extraction)
}

} // verus!

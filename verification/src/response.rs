//! The result envelopes a completion call can carry back.
//!
//! A buffered call decodes one [`Response`]; a streamed call collects an
//! ordered list of [`StreamResponse`] chunks. A failed call carries an
//! [`ErrorResponse`]: the structured body the endpoint returned plus the
//! numeric status code observed on the transport, which the body itself
//! does not hold. Values of these types are produced outside this crate by
//! the JSON decoder; timestamps are held as whole seconds, and the
//! endpoint's fractional timings and log-probabilities as their decimal
//! text, so that every field is a plain value.

use vstd::prelude::*;

verus! {

/// The structured body of an endpoint failure.
#[derive(Clone, Debug)]
pub struct ErrorBody {
    pub error_type: String,
    pub message: String,
}

/// An endpoint failure: the decoded body and the transport status code,
/// attached out of band.
#[derive(Clone, Debug)]
pub struct ErrorResponse {
    pub error: ErrorBody,
    pub code: u16,
}

/// One chunk of a streamed completion: the envelope of the call and a
/// partial delta per choice. The terminal chunk may carry usage counters
/// in the provider-specific wrapper.
#[derive(Clone, Debug)]
pub struct StreamResponse {
    pub id: String,
    pub object: String,
    pub created: i64,
    pub model: String,
    pub system_fingerprint: Option<String>,
    pub choices: Vec<StreamChoice>,
    pub x_groq: Option<XGroq>,
}

/// One choice inside a stream chunk.
#[derive(Clone, Debug)]
pub struct StreamChoice {
    pub index: u32,
    pub delta: ChoiceDelta,
    pub logprobs: Option<String>,
    pub finish_reason: Option<String>,
}

/// The partial content a stream chunk adds to one choice.
#[derive(Clone, Debug)]
pub struct ChoiceDelta {
    pub role: Option<String>,
    pub content: Option<String>,
}

/// The provider-specific wrapper on a terminal stream chunk.
#[derive(Clone, Debug)]
pub struct XGroq {
    pub id: String,
    pub usage: Option<UsageInfo>,
}

/// A buffered completion result: envelope, choices and usage counters.
#[derive(Clone, Debug)]
pub struct Response {
    pub id: String,
    pub object: String,
    pub created: i64,
    pub model: String,
    pub system_fingerprint: Option<String>,
    pub choices: Vec<Choice>,
    pub usage: UsageInfo,
}

/// Token counters and timings of one call; the timings are decimal text.
#[derive(Clone, Debug)]
pub struct UsageInfo {
    pub prompt_tokens: u32,
    pub completion_tokens: u32,
    pub total_tokens: u32,
    pub prompt_time: String,
    pub completion_time: String,
    pub total_time: String,
}

/// One candidate completion of a buffered call.
#[derive(Clone, Debug)]
pub struct Choice {
    pub index: u32,
    pub message: ChoiceMessage,
    pub finish_reason: String,
    pub logprobs: Option<String>,
}

/// The full message of one buffered choice.
#[derive(Clone, Debug)]
pub struct ChoiceMessage {
    pub role: String,
    pub content: String,
}

} // verus!

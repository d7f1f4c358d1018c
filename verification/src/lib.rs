//! A verified client core for a hosted chat-completion endpoint.
//!
//! The crate models one conversation turn (`message`), exact decimal
//! sampling controls (`num`), the completion
//! request and its staged builder (`request`, `builder`), the buffered and
//! streamed response envelopes (`response`), the unified error channel
//! (`error`), the exact wire encoding of a request (`encode`), the
//! event-stream consumption state machine (`stream`), and the client that
//! owns the credential and the conversation history (`client`).
//!
//! Network transport, JSON decoding of responses and async plumbing are
//! external collaborators and live outside this crate.

pub mod builder;
pub mod client;
pub mod encode;
pub mod error;
pub mod message;
pub mod num;
pub mod request;
pub mod response;
pub mod stream;

//! The unified error channel of a completion call.
//!
//! Every failure a call can take — a caller error caught before any
//! network activity, a transport failure, a non-success status with a
//! structured body, or a payload that does not match its schema — is one
//! variant here, so a caller branches by category without inspecting
//! transport internals. Nothing is silently swallowed, and no partial
//! stream data ever rides along with an error.

use vstd::prelude::*;

use crate::response::ErrorResponse;

verus! {

/// A caller error, rejected before any network activity.
#[derive(Clone, Copy, Debug, PartialEq, Eq, Structural)]
pub enum ValidationError {
    /// The merged message history was empty at dispatch time.
    EmptyHistory,
    /// The dispatch path did not match the request's stream flag.
    StreamFlagMismatch,
}

/// The outcome channel for every failure category of a call.
#[derive(Clone, Debug)]
pub enum CompletionError {
    /// A caller error; no connection was opened for it.
    Validation(ValidationError),
    /// A connection or network failure, with the transport's message.
    Transport(String),
    /// A non-success status whose body decoded as an error envelope; the
    /// envelope carries the numeric status code.
    Api(ErrorResponse),
    /// A payload that did not match the expected schema, success or error.
    Decode(String),
}

} // verus!

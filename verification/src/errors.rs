//! The error taxonomy of the gateway core. Every failure is an explicit
//! result value; nothing here is thrown.

use vstd::prelude::*;
use vstd::string::*;

use crate::text::{spec_u64_string, u64_to_string};

verus! {

/// Failure of a model-list call.
#[derive(Debug, PartialEq, Eq)]
pub enum ProviderError {
    /// The clock gave no timestamp for the first log line of the call.
    Timestamp,
    /// The local HTTP client could not be built; carries the builder's
    /// message.
    ClientConstruction(String),
    /// Network-level failure: connect, timeout, DNS; carries the
    /// transport's message.
    Transport(String),
    /// The endpoint answered with a non-success status.
    Server(u16),
    /// The body matched no known model-list shape; carries the decode
    /// message.
    Parse(String),
}

/// Failure of a chat-completion call.
#[derive(Debug, PartialEq, Eq)]
pub enum ChatError {
    /// A required field was empty; rejected before any I/O.
    InvalidInput,
    /// The local HTTP client could not be built; never retried.
    ClientConstruction(String),
    /// Network-level failure; retried up to the budget.
    Transport(String),
    /// Non-success status from the endpoint; retried up to the budget.
    Server { status: u16, body: String },
    /// A success response carried no usable content; never retried.
    /// Carries the raw body for diagnosis.
    MissingContent(String),
}

/// The one-line description of a [`ProviderError`].
pub open spec fn spec_provider_error_message(e: &ProviderError) -> Seq<char> {
    match e {
        ProviderError::Timestamp => "Failed to read the clock"@,
        ProviderError::ClientConstruction(m) => "Failed to create HTTP client: "@ + m@,
        ProviderError::Transport(m) => "Request failed: "@ + m@,
        ProviderError::Server(s) => "Server returned error: "@ + spec_u64_string(*s as u64),
        ProviderError::Parse(m) => "Failed to parse response: "@ + m@,
    }
}

/// The one-line description of a [`ChatError`].
pub open spec fn spec_chat_error_message(e: &ChatError) -> Seq<char> {
    match e {
        ChatError::InvalidInput => "Server URL, model and message must not be empty"@,
        ChatError::ClientConstruction(m) => "Failed to create HTTP client: "@ + m@,
        ChatError::Transport(m) => "Request failed: "@ + m@,
        ChatError::Server { status, .. } => "Server returned error: "@ + spec_u64_string(
            *status as u64,
        ),
        ChatError::MissingContent(_) => "Invalid response format"@,
    }
}

impl ProviderError {
    /// A one-line description, in the shape the log and the UI show.
    pub fn message(&self) -> (r: String)
        ensures
            r@ == spec_provider_error_message(self),
    {
        match self {
            ProviderError::Timestamp => String::from_str("Failed to read the clock"),
            ProviderError::ClientConstruction(e) => String::from_str(
                "Failed to create HTTP client: ",
            ).concat(e.as_str()),
            ProviderError::Transport(e) => String::from_str("Request failed: ").concat(e.as_str()),
            ProviderError::Server(s) => String::from_str("Server returned error: ").concat(
                u64_to_string(*s as u64).as_str(),
            ),
            ProviderError::Parse(e) => String::from_str("Failed to parse response: ").concat(
                e.as_str(),
            ),
        }
    }
}

impl ChatError {
    /// A one-line description, in the shape the log and the UI show.
    pub fn message(&self) -> (r: String)
        ensures
            r@ == spec_chat_error_message(self),
    {
        match self {
            ChatError::InvalidInput => String::from_str(
                "Server URL, model and message must not be empty",
            ),
            ChatError::ClientConstruction(e) => String::from_str(
                "Failed to create HTTP client: ",
            ).concat(e.as_str()),
            ChatError::Transport(e) => String::from_str("Request failed: ").concat(e.as_str()),
            ChatError::Server { status, .. } => String::from_str("Server returned error: ").concat(
                u64_to_string(*status as u64).as_str(),
            ),
            ChatError::MissingContent(_) => String::from_str("Invalid response format"),
        }
    }
}

} // verus!

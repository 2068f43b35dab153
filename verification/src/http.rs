//! The boundary to the HTTP transport. The gateway's logic never
//! performs a request itself: it hands a URL and a body to an
//! implementation of [`HttpClient`] and classifies whatever came back.
//! The host implements the trait over a real client; tests implement
//! it over scripted replies. No contract constrains the trait, so
//! everything proved about the callers holds for every implementation.

use vstd::prelude::*;

verus! {

/// Everything one HTTP attempt can come back with.
#[derive(Debug, PartialEq, Eq)]
pub enum HttpOutcome {
    /// The local client could not be built; carries the builder's
    /// message. Local misconfiguration, distinct from a request that
    /// went out and failed.
    ClientFailure(String),
    /// The request left but no response arrived: connect, timeout,
    /// DNS. Carries the transport's message.
    RequestFailure(String),
    /// The endpoint answered.
    Response { status: u16, body: String },
}

/// Whether an HTTP status counts as success.
pub open spec fn spec_success_status(status: u16) -> bool {
    200 <= status < 300
}

/// Exec mirror of [`spec_success_status`].
pub fn is_success_status(status: u16) -> (r: bool)
    ensures
        r == spec_success_status(status),
{
    200 <= status && status < 300
}

/// One attempt's worth of HTTP, performed by the host or by a test
/// double. Implementations build a fresh client per call, so client
/// construction failures surface per attempt.
pub trait HttpClient {
    /// Issues a GET with the given overall timeout.
    fn get(&mut self, url: &str, timeout_ms: u64) -> HttpOutcome;

    /// Posts a JSON body using the chat pipeline's client settings.
    fn post_json(&mut self, url: &str, body: &str) -> HttpOutcome;

    /// Waits the fixed delay the retry policy puts between attempts.
    fn pause_between_attempts(&mut self);
}

} // verus!

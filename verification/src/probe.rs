//! Classification of a single probe's result.
//!
//! A probe is one lightweight existence check against one candidate URL.
//! Its outcome is classified from the transport result and HTTP status:
//! a response with a 2xx status is a success and carries the URL; any
//! transport error, timeout, or non-success status is a routine failure,
//! never surfaced as an error to the caller.

use vstd::prelude::*;

verus! {

/// The outcome of probing one candidate URL.
pub enum ProbeOutcome {
    /// The URL resolved with a success status; carries the full URL.
    Success(String),
    /// Transport error, timeout, or non-success status: this candidate
    /// is not the answer.
    Failure,
    /// A response that is neither a clear success nor a clear failure
    /// (never produced by classification here; not retried).
    Inconclusive,
}

/// Whether an HTTP status code counts as success (2xx).
pub open spec fn is_success_status(status: u16) -> bool {
    200 <= status < 300
}

/// What classification must return: success exactly when the transport
/// succeeded and the status is 2xx.
pub open spec fn classify_spec(transport_ok: bool, status: u16, url: String) -> ProbeOutcome {
    if transport_ok && is_success_status(status) {
        ProbeOutcome::Success(url)
    } else {
        ProbeOutcome::Failure
    }
}

/// Classify one probe: `transport_ok` is false when the request itself
/// failed (connection error or per-request timeout), `status` is the HTTP
/// status code when it succeeded, and `url` is the probed URL.
pub fn classify_probe(transport_ok: bool, status: u16, url: String) -> (r: ProbeOutcome)
    ensures
        r == classify_spec(transport_ok, status, url),
{
    if transport_ok && 200 <= status && status < 300 {
        ProbeOutcome::Success(url)
    } else {
        ProbeOutcome::Failure
    }
}

} // verus!

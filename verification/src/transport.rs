//! Classification of transport-level failures from the HTTP client.
//!
//! A request that fails before any HTTP status is received ends in a client
//! error value.  Timeouts, connection failures and request-build failures
//! are worth retrying; anything else is not.  The error value itself is
//! opaque to the verifier, so the retry engine receives the classification
//! as an [`AttemptOutcome`] and is verified for either answer.

use vstd::prelude::*;
use crate::retry::AttemptOutcome;

verus! {

/// The outside HTTP client's error type, opaque to the verifier.
#[verifier::external_type_specification]
#[verifier::external_body]
pub struct ExReqwestError(reqwest::Error);

/// Relies on reqwest::Error::is_timeout: whether a timeout caused the
/// failure.
pub assume_specification[ reqwest::Error::is_timeout ](e: &reqwest::Error) -> (r: bool);

/// Relies on reqwest::Error::is_connect: whether connecting failed.
pub assume_specification[ reqwest::Error::is_connect ](e: &reqwest::Error) -> (r: bool);

/// Relies on reqwest::Error::is_request: whether building or sending the
/// request failed.
pub assume_specification[ reqwest::Error::is_request ](e: &reqwest::Error) -> (r: bool);

/// Whether a transport failure is worth retrying: timeouts, connection
/// failures and request failures are; everything else is not.
pub fn is_retryable_error(err: &reqwest::Error) -> bool {
    err.is_timeout() || err.is_connect() || err.is_request()
}

/// The retry-engine outcome of a transport failure: always a transport
/// outcome, retryable exactly when [`is_retryable_error`] says so.
pub fn transport_outcome(err: &reqwest::Error) -> (o: AttemptOutcome)
    ensures
        o matches AttemptOutcome::Transport { .. },
{
    AttemptOutcome::Transport { retryable: is_retryable_error(err) }
}

} // verus!

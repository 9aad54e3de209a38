//! The transport HTTP status of an error, and its resolution to a status HTTP
//! defines.

use vstd::prelude::*;

verus! {

/// Default HTTP status carried by an error when none is set explicitly.
///
/// A failure travels in the `errors[]` envelope with `200 OK`: HTTP describes
/// delivery, the envelope describes the operation result.
pub const DEFAULT_ERROR_STATUS: u16 = 200;

/// Status substituted when the configured one is not a valid HTTP status code.
/// Deliberately not a `5xx`: it is a safety net for a bug in the calling code.
pub const INVALID_STATUS_FALLBACK: u16 = 200;

/// Lowest status code HTTP defines (`1xx`).
pub const VALID_STATUS_MIN: u16 = 100;

/// Highest status code HTTP defines (`5xx`).
pub const VALID_STATUS_MAX: u16 = 599;

/// HTTP status the request extractors report for a body that could not be
/// parsed or failed validation (`422 Unprocessable Content`).
pub const REJECTION_STATUS: u16 = 422;

/// A status inside the range HTTP defines (RFC 9110 §15: `100..=599`).
pub open spec fn valid_status(status: u16) -> bool {
    VALID_STATUS_MIN <= status <= VALID_STATUS_MAX
}

/// What [`resolve_status`] answers for a configured status.
pub open spec fn resolved_status(status: u16) -> u16 {
    if valid_status(status) {
        status
    } else {
        INVALID_STATUS_FALLBACK
    }
}

/// Whether `status` lies in the range HTTP defines.
pub fn is_valid_status(status: u16) -> (r: bool)
    ensures
        r == valid_status(status),
{
    VALID_STATUS_MIN <= status && status <= VALID_STATUS_MAX
}

/// Resolve a configured status into a real HTTP status code, used by every
/// framework adapter so they agree: a valid status is kept, anything else
/// falls back to `200`.
pub fn resolve_status(status: u16) -> (r: u16)
    ensures
        r == resolved_status(status),
{
    if is_valid_status(status) {
        status
    } else {
        INVALID_STATUS_FALLBACK
    }
}

/// Resolving always yields a status HTTP defines, never a server error for an
/// invalid input, and resolving twice changes nothing.
pub proof fn lemma_resolve_status_is_valid(status: u16)
    ensures
        valid_status(resolved_status(status)),
        resolved_status(resolved_status(status)) == resolved_status(status),
        !valid_status(status) ==> resolved_status(status) < 500,
        valid_status(status) ==> resolved_status(status) == status,
{
}

} // verus!

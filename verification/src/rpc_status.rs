//! Out-of-band success/failure signal, modelled on gRPC's `grpc-status`.
//!
//! Every response carries exactly one [`X_RPC_STATUS`] header whose value is
//! [`OK`] when the envelope's `errors[]` is empty and [`ERROR`] otherwise. The
//! signal is tied to `errors[]`, never to the HTTP status line.

use vstd::prelude::*;

verus! {

/// Header carrying the [`OK`] / [`ERROR`] outcome (lowercase, as HTTP/2 needs).
pub const X_RPC_STATUS: &'static str = "x-rpc-status";

/// [`X_RPC_STATUS`] value for a response whose `errors[]` is empty.
pub const OK: &'static str = "ok";

/// [`X_RPC_STATUS`] value for a response carrying at least one error.
pub const ERROR: &'static str = "error";

/// The header value for an envelope carrying `error_count` errors.
pub fn rpc_status_for(error_count: usize) -> (r: &'static str)
    ensures
        error_count == 0 ==> r@ == OK@,
        error_count > 0 ==> r@ == ERROR@,
{
    if error_count == 0 {
        OK
    } else {
        ERROR
    }
}

/// The two outcomes are distinguishable, and neither is the empty string a
/// stripped header would look like.
pub proof fn lemma_outcomes_are_distinct()
    ensures
        OK@ != ERROR@,
        OK@.len() > 0,
        ERROR@.len() > 0,
{
    reveal_strlit("ok");
    reveal_strlit("error");
    assert(OK@.len() != ERROR@.len());
}

} // verus!

//! What the request extractors hand a handler, and what they answer when they
//! refuse a request.

use crate::code::ApiErrorCode;
use crate::error::ApiError;
use crate::error_message::messages_view;
use crate::response::{error_entries, ApiResponse, NoData};
use crate::status::{resolved_status, resolve_status, valid_status, REJECTION_STATUS};
use crate::validate::{flatten, Validated, ValidationErrors};
use vstd::prelude::*;

verus! {

/// A JSON request body parsed into `T`. Access the value via `.0`.
#[derive(Debug, Clone, Copy)]
pub struct ApiJson<T>(pub T);

/// A JSON request body parsed into `T` and validated.
#[derive(Debug, Clone, Copy)]
pub struct ApiValidated<T>(pub Validated<T>);

/// A refused request answered with a whole failure envelope (e.g. one entry
/// per invalid field) and an HTTP status, [`REJECTION_STATUS`] unless
/// overridden.
#[derive(Debug)]
pub struct ApiResponseError(ApiResponse<NoData>, u16);

impl ApiResponseError {
    /// The envelope sent back.
    pub closed spec fn envelope(self) -> ApiResponse<NoData> {
        self.0
    }

    /// The status configured for the answer.
    pub closed spec fn configured_status(self) -> u16 {
        self.1
    }

    /// Wrap a failure envelope, answering with [`REJECTION_STATUS`].
    pub fn new(response: ApiResponse<NoData>) -> (r: Self)
        ensures
            r.envelope() == response,
            r.configured_status() == REJECTION_STATUS,
    {
        ApiResponseError(response, REJECTION_STATUS)
    }

    /// Override the HTTP status this rejection answers with.
    pub fn with_status(self, status: u16) -> (r: Self)
        ensures
            r.envelope() == self.envelope(),
            r.configured_status() == status,
    {
        ApiResponseError(self.0, status)
    }

    /// The HTTP status the answer goes out with: the configured one when it is
    /// a status HTTP defines, `200` otherwise.
    pub fn status(&self) -> (r: u16)
        ensures
            r == resolved_status(self.configured_status()),
            valid_status(r),
    {
        resolve_status(self.1)
    }

    /// The envelope sent back.
    pub fn response(&self) -> (r: &ApiResponse<NoData>)
        ensures
            *r == self.envelope(),
    {
        &self.0
    }

    /// The envelope sent back, consuming the rejection.
    pub fn into_response(self) -> (r: ApiResponse<NoData>)
        ensures
            r == self.envelope(),
    {
        self.0
    }

    /// How the rejection renders in logs.
    pub fn to_display_string(&self) -> (r: String)
        ensures
            r@ == "request validation failed"@,
    {
        String::from_str("request validation failed")
    }

    /// The rejection of a request whose body an error refused: the error's
    /// envelope, answered with [`REJECTION_STATUS`].
    pub fn from_error<C: ApiErrorCode>(err: &ApiError<C>) -> (r: Self)
        ensures
            r.envelope().data is None,
            r.envelope().meta is None,
            messages_view(r.envelope().errors@) == error_entries(*err),
            r.configured_status() == REJECTION_STATUS,
    {
        ApiResponseError::new(err.into_api_response())
    }
}

impl<T> ApiValidated<T> {
    /// Accept a parsed body whose validation came out as `outcome`: the
    /// validated value when it passed, otherwise a rejection carrying one
    /// entry per violated rule, answered with [`REJECTION_STATUS`].
    pub fn accept(value: T, outcome: Result<(), ValidationErrors>) -> (r: Result<Self, ApiResponseError>)
        ensures
            outcome is Ok ==> (r matches Ok(v) && v.0.value() == value),
            outcome matches Err(errors) ==> (r matches Err(rej) && rej.envelope().data is None
                && rej.envelope().meta is None && messages_view(rej.envelope().errors@) == flatten(errors)
                && rej.configured_status() == REJECTION_STATUS),
    {
        match Validated::new(value, outcome) {
            Ok(v) => Ok(ApiValidated(v)),
            Err(resp) => Err(ApiResponseError::new(resp)),
        }
    }
}

} // verus!

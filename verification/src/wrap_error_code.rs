//! Wrapping a failure that is not an API error under an API error code, keeping
//! it as the cause.

use crate::code::ApiErrorCode;
use crate::declared::IntoApiError;
use crate::error::{error, fresh_error, ApiError, ApiErrorView, Cause, ForeignError};
use vstd::prelude::*;

verus! {

/// The error `code` (with `message`, if any) wrapping `cause`.
pub open spec fn wrapped<C>(code: C, message: Option<Seq<char>>, cause: ForeignError) -> ApiErrorView<C> {
    ApiErrorView { source: seq![Cause::Foreign(cause)], ..fresh_error(code, message) }
}

/// A declared error with `cause` attached as its newest cause.
pub open spec fn with_cause<C>(e: ApiErrorView<C>, cause: ForeignError) -> ApiErrorView<C> {
    ApiErrorView { source: seq![Cause::Foreign(cause)] + e.source, ..e }
}

/// Wrap the error of a `Result` under an API error code.
pub trait WrapApiError<T, C: ApiErrorCode>: Sized {
    /// The value or the failure this holds.
    spec fn outcome(&self) -> Result<T, ForeignError>;

    /// Wrap the error with `code`, keeping it as the cause. A message declared
    /// with the code is **not** applied.
    fn wrap_api_error(self, code: C) -> (r: Result<T, ApiError<C>>)
        ensures
            self.outcome() matches Ok(v) ==> r == Ok::<T, ApiError<C>>(v),
            self.outcome() matches Err(cause) ==> (r matches Err(e) && e@ == wrapped(code, None, cause)),
    ;

    /// Wrap the error under the code's declared error, keeping it as the cause.
    fn wrap_api_code(self, code: C) -> (r: Result<T, ApiError<C>>)
        where
            C: IntoApiError,
        requires
            self.outcome() is Err ==> code.can_raise(),
        ensures
            self.outcome() matches Ok(v) ==> r == Ok::<T, ApiError<C>>(v),
            self.outcome() matches Err(cause) ==> (r matches Err(e) && e@ == with_cause(code.raised(), cause)),
    ;

    /// Wrap the error with `code` and `message`, keeping it as the cause.
    fn wrap_api_error_and_message(self, code: C, message: String) -> (r: Result<T, ApiError<C>>)
        ensures
            self.outcome() matches Ok(v) ==> r == Ok::<T, ApiError<C>>(v),
            self.outcome() matches Err(cause) ==> (r matches Err(e) && e@ == wrapped(code, Some(message@), cause)),
    ;
}

impl<T, C: ApiErrorCode> WrapApiError<T, C> for Result<T, ForeignError> {
    open spec fn outcome(&self) -> Result<T, ForeignError> {
        *self
    }

    fn wrap_api_error(self, code: C) -> (r: Result<T, ApiError<C>>) {
        match self {
            Ok(v) => Ok(v),
            Err(err) => Err(error(code).with_foreign(err)),
        }
    }

    fn wrap_api_code(self, code: C) -> (r: Result<T, ApiError<C>>)
        where
            C: IntoApiError,
    {
        match self {
            Ok(v) => Ok(v),
            Err(err) => Err(code.into_api_error().with_foreign(err)),
        }
    }

    fn wrap_api_error_and_message(self, code: C, message: String) -> (r: Result<T, ApiError<C>>) {
        match self {
            Ok(v) => Ok(v),
            Err(err) => Err(error(code).with_message(message).with_foreign(err)),
        }
    }
}

/// Wrap the error with the code and message `f` produces, keeping it as the
/// cause. `f` runs only on failure.
pub fn wrap_api_error_with<T, C: ApiErrorCode, F: FnOnce() -> (C, String)>(
    res: Result<T, ForeignError>,
    f: F,
) -> (r: Result<T, ApiError<C>>)
    requires
        res is Err ==> call_requires(f, ()),
    ensures
        res matches Ok(v) ==> r == Ok::<T, ApiError<C>>(v),
        res matches Err(cause) ==> (r matches Err(e) && exists|out: (C, String)|
            call_ensures(f, (), out) && e@ == wrapped(out.0, Some(out.1@), cause)),
{
    match res {
        Ok(v) => Ok(v),
        Err(err) => {
            let (code, message) = f();
            let e = error(code).with_message(message).with_foreign(err);
            Err(e)
        },
    }
}

/// Attach an API error code to a failure that is not an API error.
pub trait WithErrorCode: Sized {
    /// The failure this stands for.
    spec fn cause(&self) -> ForeignError;

    /// The error `code` with this failure as its cause. A message declared
    /// with the code is **not** applied.
    fn with_error_code<C: ApiErrorCode>(self, code: C) -> (r: ApiError<C>)
        ensures
            r@ == wrapped(code, None, self.cause()),
    ;

    /// The code's declared error with this failure as its cause.
    fn with_api_code<C: IntoApiError>(self, code: C) -> (r: ApiError<C>)
        requires
            code.can_raise(),
        ensures
            r@ == with_cause(code.raised(), self.cause()),
    ;

    /// The error `code` with `message` and this failure as its cause.
    fn with_error_code_and_message<C: ApiErrorCode>(self, code: C, message: String) -> (r: ApiError<C>)
        ensures
            r@ == wrapped(code, Some(message@), self.cause()),
    ;
}

impl WithErrorCode for ForeignError {
    open spec fn cause(&self) -> ForeignError {
        *self
    }

    fn with_error_code<C: ApiErrorCode>(self, code: C) -> (r: ApiError<C>) {
        error(code).with_foreign(self)
    }

    fn with_api_code<C: IntoApiError>(self, code: C) -> (r: ApiError<C>) {
        code.into_api_error().with_foreign(self)
    }

    fn with_error_code_and_message<C: ApiErrorCode>(self, code: C, message: String) -> (r: ApiError<C>) {
        error(code).with_message(message).with_foreign(self)
    }
}

} // verus!

//! Turning absence (`None`, `false`) into an API error.

use crate::code::ApiErrorCode;
use crate::declared::IntoApiError;
use crate::error::{error, fresh_error, ApiError};
use vstd::prelude::*;

verus! {

/// Convert absence into an [`ApiError`] carrying a code.
pub trait OkOrError<T, C: ApiErrorCode>: Sized {
    /// The value carried on success, `None` on absence.
    spec fn present(&self) -> Option<T>;

    /// Convert absence into an error carrying `code` and nothing else: a
    /// message declared with the code is **not** applied.
    fn ok_or_api_error(self, code: C) -> (r: Result<T, ApiError<C>>)
        ensures
            self.present() matches Some(v) ==> r == Ok::<T, ApiError<C>>(v),
            self.present() is None ==> (r matches Err(e) && e@ == fresh_error(code, None)),
    ;

    /// Convert absence into the code's declared error (its declared message
    /// and status applied).
    fn ok_or_api_code(self, code: C) -> (r: Result<T, ApiError<C>>)
        where
            C: IntoApiError,
        requires
            self.present() is None ==> code.can_raise(),
        ensures
            self.present() matches Some(v) ==> r == Ok::<T, ApiError<C>>(v),
            self.present() is None ==> (r matches Err(e) && e@ == code.raised()),
    ;

    /// Convert absence into an error carrying `code` and `message`.
    fn ok_or_api_error_with_message(self, code: C, message: String) -> (r: Result<T, ApiError<C>>)
        ensures
            self.present() matches Some(v) ==> r == Ok::<T, ApiError<C>>(v),
            self.present() is None ==> (r matches Err(e) && e@ == fresh_error(code, Some(message@))),
    ;
}

impl<T, C: ApiErrorCode> OkOrError<T, C> for Option<T> {
    open spec fn present(&self) -> Option<T> {
        *self
    }

    fn ok_or_api_error(self, code: C) -> (r: Result<T, ApiError<C>>) {
        match self {
            Some(v) => Ok(v),
            None => Err(error(code)),
        }
    }

    fn ok_or_api_code(self, code: C) -> (r: Result<T, ApiError<C>>)
        where
            C: IntoApiError,
    {
        match self {
            Some(v) => Ok(v),
            None => Err(code.into_api_error()),
        }
    }

    fn ok_or_api_error_with_message(self, code: C, message: String) -> (r: Result<T, ApiError<C>>) {
        match self {
            Some(v) => Ok(v),
            None => Err(error(code).with_message(message)),
        }
    }
}

/// A `bool` guard carries no value, so its success is `()`: use it as a bare
/// guard, `is_owner.ok_or_api_error("forbidden")?`.
impl<C: ApiErrorCode> OkOrError<(), C> for bool {
    open spec fn present(&self) -> Option<()> {
        if *self {
            Some(())
        } else {
            None
        }
    }

    fn ok_or_api_error(self, code: C) -> (r: Result<(), ApiError<C>>) {
        if self {
            return Ok(());
        }
        Err(error(code))
    }

    fn ok_or_api_code(self, code: C) -> (r: Result<(), ApiError<C>>)
        where
            C: IntoApiError,
    {
        if self {
            return Ok(());
        }
        Err(code.into_api_error())
    }

    fn ok_or_api_error_with_message(self, code: C, message: String) -> (r: Result<(), ApiError<C>>) {
        if self {
            return Ok(());
        }
        Err(error(code).with_message(message))
    }
}

} // verus!

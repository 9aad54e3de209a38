//! Marking the path an error takes, and turning any fallible result into a
//! handler result in one step.

use crate::code::ApiErrorCode;
use crate::error::{error, ApiError, ApiErrorView, ForeignError};
use crate::response::{success, ApiResponse, NoMeta};
use crate::wrap_error_code::wrapped;
use vstd::prelude::*;

verus! {

/// The error after [`ApiError::track`]: one bare frame more at the head of its
/// cause chain, nothing else changed.
pub open spec fn marked_passing<C>(before: ApiErrorView<C>, after: ApiErrorView<C>) -> bool {
    &&& after.source.len() == before.source.len() + 1
    &&& after.source.drop_first() == before.source
    &&& after == (ApiErrorView { source: after.source, ..before })
}

/// Add a bare frame to the cause chain of a failed result.
pub trait ApiErrorTrack<T, C: ApiErrorCode>: Sized {
    /// The result this is.
    spec fn outcome(&self) -> Result<T, ApiError<C>>;

    /// Mark the error of a failed result as having passed here; a success is
    /// kept as it is.
    fn track_api_error(self) -> (r: Result<T, ApiError<C>>)
        ensures
            self.outcome() matches Ok(v) ==> r == Ok::<T, ApiError<C>>(v),
            self.outcome() matches Err(e) ==> (r matches Err(t) && marked_passing(e@, t@)),
    ;
}

impl<T, C: ApiErrorCode> ApiErrorTrack<T, C> for Result<T, ApiError<C>> {
    open spec fn outcome(&self) -> Result<T, ApiError<C>> {
        *self
    }

    fn track_api_error(self) -> (r: Result<T, ApiError<C>>) {
        match self {
            Ok(t) => Ok(t),
            Err(e) => Err(e.track()),
        }
    }
}

/// Turn a fallible call into a handler result in one step: the value wrapped
/// in a success envelope, or the failure wrapped under `C`'s default code and
/// kept as the cause.
pub fn track_api_response<T, C: ApiErrorCode + Default>(res: Result<T, ForeignError>) -> (r: Result<
    ApiResponse<T, NoMeta>,
    ApiError<C>,
>)
    ensures
        res matches Ok(v) ==> (r matches Ok(resp) && resp.data == Some(v) && resp.meta is None
            && resp.errors@.len() == 0),
        res matches Err(cause) ==> (r matches Err(e) && call_ensures(C::default, (), e@.code) && e@
            == wrapped(e@.code, None, cause)),
{
    match res {
        Ok(t) => Ok(success(t)),
        Err(e) => Err(error(C::default()).with_foreign(e)),
    }
}

} // verus!

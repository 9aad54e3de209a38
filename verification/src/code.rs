//! Error codes: the machine-readable value clients match on.

use vstd::prelude::*;

verus! {

/// A type usable as the `code` of an [`ApiError`](crate::ApiError): it renders
/// to the stable wire string clients match on.
pub trait ApiErrorCode {
    /// The wire string of this code.
    spec fn code_view(&self) -> Seq<char>;

    /// Render the wire string of this code.
    fn code_string(&self) -> (r: String)
        ensures
            r@ == self.code_view(),
    ;
}

impl ApiErrorCode for &'static str {
    open spec fn code_view(&self) -> Seq<char> {
        (*self)@
    }

    fn code_string(&self) -> (r: String) {
        String::from_str(*self)
    }
}

impl ApiErrorCode for String {
    open spec fn code_view(&self) -> Seq<char> {
        self@
    }

    fn code_string(&self) -> (r: String) {
        self.clone()
    }
}

/// Opt-in mapping from an error code to an HTTP status, implemented on a code
/// type so callers need not repeat the status at every raise site.
pub trait ApiErrorStatus {
    /// The HTTP status this code maps to.
    spec fn status_of(&self) -> u16;

    /// The HTTP status this code should map to.
    fn status_code(&self) -> (r: u16)
        ensures
            r == self.status_of(),
    ;
}

} // verus!

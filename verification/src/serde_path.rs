//! Request-body rejections: the error a body that could not be read or parsed
//! turns into, with a JSON Pointer to the offending field.

use crate::error::{error, fresh_error, ApiError, ApiErrorView};
use crate::error_message::ErrorSourceView;
use crate::pointer::{count_char, json_pointer, lemma_pointer_slash_count, lemma_pointer_text_concat, pointer_of, pointer_text, PathSegment};
use crate::status::REJECTION_STATUS;
use vstd::prelude::*;

verus! {

/// Error code used for body deserialization failures.
pub const INVALID_BODY: &'static str = "invalid_body";

/// The locator of a path: a pointer when the path is not empty, none otherwise.
pub open spec fn path_source(path: Seq<PathSegment>) -> Option<ErrorSourceView> {
    match pointer_of(path) {
        Some(p) => Some(ErrorSourceView { pointer: Some(p), ..ErrorSourceView::empty() }),
        None => None,
    }
}

/// The rejection of a body: code `invalid_body`, the given message, the
/// [`REJECTION_STATUS`] transport status, and the given locator.
pub open spec fn rejection(message: Seq<char>, source: Option<ErrorSourceView>) -> ApiErrorView<&'static str> {
    ApiErrorView {
        status: Some(REJECTION_STATUS),
        error_source: source,
        ..fresh_error(INVALID_BODY, Some(message))
    }
}

/// The error for a body that failed to deserialize at `path` with `message`:
/// code `invalid_body`, the message, a [`REJECTION_STATUS`] transport status,
/// and a JSON Pointer locator (omitted when the path is empty, e.g. a
/// top-level type mismatch).
pub fn error_from_path(path: &Vec<PathSegment>, message: String) -> (r: ApiError)
    ensures
        r@ == rejection(message@, path_source(path@)),
{
    let pointer = json_pointer(path);
    let err = error(INVALID_BODY).with_message(message).with_status(REJECTION_STATUS);
    match pointer {
        Some(p) => err.with_pointer(p),
        None => err,
    }
}

/// The error for a body that could not even be read: code `invalid_body`, the
/// reader's message and a [`REJECTION_STATUS`] transport status, no locator.
pub fn body_read_error(message: String) -> (r: ApiError)
    ensures
        r@ == rejection(message@, None),
{
    error(INVALID_BODY).with_message(message).with_status(REJECTION_STATUS)
}


/// A body rejected at a non-empty path points at the whole path: its locator
/// holds only a pointer, with one `/`-led token per segment of the path, in
/// path order; a rejection at an empty path locates nothing.
pub proof fn lemma_rejection_points_at_whole_path(path: Seq<PathSegment>)
    ensures
        path.len() > 0 ==> path_source(path) == Some(
            ErrorSourceView { pointer: Some(pointer_text(path)), parameter: None, header: None },
        ),
        path.len() > 0 ==> count_char(pointer_text(path), '/') == path.len(),
        forall|k: int|
            0 <= k <= path.len() ==> pointer_text(path) == pointer_text(path.take(k)) + pointer_text(
                #[trigger] path.skip(k),
            ),
        path.len() == 0 ==> path_source(path) is None,
{
    lemma_pointer_slash_count(path);
    assert forall|k: int| 0 <= k <= path.len() implies pointer_text(path) == pointer_text(path.take(k))
        + pointer_text(#[trigger] path.skip(k)) by {
        lemma_pointer_text_concat(path.take(k), path.skip(k));
        assert(path.take(k) + path.skip(k) =~= path);
    }
}

} // verus!

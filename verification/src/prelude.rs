//! The names a handler module usually needs, in one import.

pub use crate::code::ApiErrorCode;
pub use crate::error::{error, ApiError};
pub use crate::error_message::ErrorMessage;
pub use crate::ok_or_error::OkOrError;
pub use crate::response::{failure, success, success_with_meta, ApiResponse, NoData, NoMeta, ResponseData};
pub use crate::track::ApiErrorTrack;
pub use crate::wrap_error_code::{WithErrorCode, WrapApiError};

//! `leto`: an RPC-style response envelope (`{ data, meta, errors[] }`) with a
//! typed error model.
//!
//! A handler answers with [`success`] or an [`ApiError`]; the error turns into a
//! failure envelope whose entries clients match on by `code`. The transport
//! status is a separate hint, resolved by [`resolve_status`], and the outcome is
//! mirrored in the `x-rpc-status` header ([`rpc_status`]).

pub mod code;
pub mod declared;
pub mod error;
pub mod error_message;
pub mod extract;
pub mod json;
pub mod meta_slots;
pub mod ok_or_error;
pub mod pointer;
pub mod prelude;
pub mod report;
pub mod request;
pub mod response;
pub mod rpc_status;
pub mod serde_path;
pub mod status;
pub mod telemetry;
pub mod template;
pub mod track;
pub mod validate;
pub mod wrap_error_code;

pub use code::{ApiErrorCode, ApiErrorStatus};
pub use declared::{
    plan_dispatch, DeclaredCode, DispatchError, DispatchPlan, IntoApiError, MessageVariant,
    VariantFields,
};
pub use error::{
    error, error_and_message, report_collect_messages, wrap_error, ApiError, Cause, ForeignError,
    Location,
};
pub use error_message::{ErrorMessage, ErrorSource};
pub use extract::{ApiJson, ApiResponseError, ApiValidated};
pub use meta_slots::{Pagination, RateLimit};
pub use ok_or_error::OkOrError;
pub use pointer::{escape_token, json_pointer, PathSegment};
pub use request::{
    adopted_request_id, RequestIdExtractionError, RootSpan, RootSpanExtractionError, StreamSpan,
    X_REQUEST_ID,
};
pub use response::{
    failure, response_from_result, success, success_with_meta, ApiResponse, ErrorResponse, NoData,
    NoMeta, ResponseData,
};
pub use serde_path::{body_read_error, error_from_path, INVALID_BODY};
pub use status::{
    is_valid_status, resolve_status, DEFAULT_ERROR_STATUS, INVALID_STATUS_FALLBACK,
    REJECTION_STATUS, VALID_STATUS_MAX, VALID_STATUS_MIN,
};
pub use track::{track_api_response, ApiErrorTrack};
pub use validate::{
    validation_error_messages, validation_failure, FieldViolation, ValidationErrors, Validated,
    ViolationKind,
};
pub use wrap_error_code::{wrap_api_error_with, WithErrorCode, WrapApiError};

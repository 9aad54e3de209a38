use leto::prelude::{error, success, ApiErrorTrack, ApiResponse};
use leto::{track_api_response, ForeignError};

#[test]
fn track_adds_a_source_frame() {
    let e = error("e");
    assert!(e.source().is_none());

    let marked = e.track();
    assert!(marked.source().is_some());
    assert_eq!(*marked.code(), "e");
}

#[test]
fn track_api_error_passes_ok_through() {
    let ok: Result<ApiResponse<()>, leto::ApiError> = Ok(success(()));
    assert!(ok.track_api_error().is_ok());
}

#[test]
fn track_api_error_tracks_the_err() {
    let err: Result<ApiResponse<()>, leto::ApiError> = Err(error("e"));
    let marked = err.track_api_error().expect_err("expected error");
    assert!(marked.source().is_some());
    assert_eq!(*marked.code(), "e");
}

#[test]
fn a_bare_frame_changes_no_entry() {
    let e = error("e").with_message("m".to_string()).track().with_verbose();
    let resp: ApiResponse = e.into();
    assert_eq!(resp.errors.len(), 1);
    assert_eq!(resp.errors[0].message.as_deref(), Some("m"));
}

#[test]
fn track_api_response_wraps_under_the_default_code() {
    let ok: Result<u8, ForeignError> = Ok(3);
    let resp = track_api_response::<u8, String>(ok).expect("success");
    assert_eq!(resp.data, Some(3));

    let failed: Result<u8, ForeignError> = Err(ForeignError::new("disk".to_string()));
    let err = track_api_response::<u8, String>(failed).expect_err("defaulted");
    assert_eq!(err.code(), "");
    assert!(err.source().is_some());
}

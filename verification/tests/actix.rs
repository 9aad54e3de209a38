use leto::{error, success, ApiResponse, DEFAULT_ERROR_STATUS};

#[test]
fn response_error_returns_the_default_status_with_error_body() {
    let e = error("boom");
    assert_eq!(e.response_status(), DEFAULT_ERROR_STATUS);
    let decoded: ApiResponse = e.into_api_response();
    assert_eq!(decoded.first_error_code(), Some("boom"));
    assert!(decoded.data.is_none());
}

#[test]
fn test_actix_with_status_sets_the_response_status() {
    let e = error("not_found").with_status(404);
    assert_eq!(e.response_status(), 404);
    let decoded: ApiResponse = e.into_api_response();
    assert_eq!(decoded.first_error_code(), Some("not_found"));
    assert!(decoded.data.is_none());
}

#[test]
fn responder_serializes_a_success_envelope() {
    let resp = success(7_i32);
    assert_eq!(resp.data, Some(7));
    assert!(resp.errors.is_empty());
    assert!(resp.shape().data);
}

#[test]
fn actix_and_axum_return_the_same_status() {
    let status = error("not_found").with_status(404).response_status();
    assert_eq!(status, 404);
}

#[test]
fn envelope_helpers_report_the_entries() {
    let resp: ApiResponse = leto::failure(vec![
        error("a").into_error_message(),
        error("b").into_error_message(),
    ]);
    assert_eq!(resp.first_error_code(), Some("a"));
    assert_eq!(resp.last_error_code(), Some("b"));
    assert_eq!(resp.err().map(|e| e.code.as_str()), Some("a"));
    assert!(resp.has_error_code("b").is_some());
    assert!(resp.has_error_code("c").is_none());
    assert_eq!(resp.clone().into_inner().expect_err("failed").code, "a");
    let missing = success(()).with_errors(vec![]).into_inner_data();
    assert!(missing.is_ok());
    let empty: ApiResponse<u8> = ApiResponse { data: None, meta: None, errors: vec![] };
    assert_eq!(empty.inner_data().expect_err("no data").display(), "missing field data in response");
    let failed: ApiResponse<u8> = leto::failure(vec![error("x").with_message("y".to_string()).into_error_message()]);
    assert_eq!(failed.into_inner_data().expect_err("failed").display(), "leto error: x, message: y");
}

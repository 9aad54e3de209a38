use leto::{wrap_api_error_with, ForeignError, WithErrorCode, WrapApiError};

#[test]
fn wrap_api_error_maps_the_error() {
    let err: Result<i32, ForeignError> = Err(ForeignError::new("boom".to_string()));
    let e = err.wrap_api_error("code").expect_err("err");
    assert_eq!(*e.code(), "code");
    assert!(e.source().is_some());

    let ok: Result<i32, ForeignError> = Ok(1);
    assert_eq!(ok.wrap_api_error("code").expect("ok"), 1);
}

#[test]
fn wrap_api_error_and_message_adds_context() {
    let err: Result<i32, ForeignError> = Err(ForeignError::new("boom".to_string()));
    let e = err.wrap_api_error_and_message("code", "context".to_string()).expect_err("err");
    assert_eq!(*e.code(), "code");
    assert_eq!(e.message().map(|m| m.as_str()), Some("context"));
    assert!(e.source().is_some());
}

#[test]
fn wrap_api_error_with_is_lazy() {
    let err: Result<i32, ForeignError> = Err(ForeignError::new("boom".to_string()));
    let e = wrap_api_error_with(err, || ("code", "context".to_string())).expect_err("err");
    assert_eq!(*e.code(), "code");
    assert_eq!(e.message().map(|m| m.as_str()), Some("context"));

    let ran = std::cell::Cell::new(false);
    let ok: Result<i32, ForeignError> = Ok(1);
    let value = wrap_api_error_with(ok, || {
        ran.set(true);
        ("code", "context".to_string())
    })
    .expect("ok");
    assert_eq!(value, 1);
    assert!(!ran.get(), "closure ran on the Ok path");
}

#[test]
fn with_error_code_lifts_a_report() {
    let e = ForeignError::new("boom".to_string()).with_error_code("code");
    assert_eq!(*e.code(), "code");
    assert!(e.source().is_some());

    let e = ForeignError::new("boom".to_string()).with_error_code_and_message("code", "context".to_string());
    assert_eq!(*e.code(), "code");
    assert_eq!(e.message().map(|m| m.as_str()), Some("context"));
}

#[test]
fn the_wrapped_failure_reaches_a_verbose_envelope() {
    let err: Result<i32, ForeignError> = Err(ForeignError::new("boom".to_string()));
    let e = err.wrap_api_error_and_message("code", "context".to_string()).expect_err("err").with_verbose();
    let resp: leto::ApiResponse = e.into();
    assert_eq!(resp.errors[0].message.as_deref(), Some("context, boom"));
}

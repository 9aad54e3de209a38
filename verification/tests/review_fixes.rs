use leto::{
    error, error_from_path, success, validation_failure, ApiError, ApiResponse, ApiResponseError,
    FieldViolation, OkOrError, PathSegment, ValidationErrors, ViolationKind, REJECTION_STATUS,
};

fn email_mismatch() -> ApiError {
    error_from_path(
        &vec![PathSegment::Key { key: "email".to_string() }],
        "invalid type: integer `42`, expected a string".to_string(),
    )
}

#[test]
fn a_rejected_body_reports_422_not_200() {
    let err = email_mismatch();
    assert_eq!(*err.code(), "invalid_body");
    assert_eq!(err.status(), REJECTION_STATUS);
    assert_eq!(err.status(), 422);
    assert_eq!(err.error_source().and_then(|s| s.pointer.as_deref()), Some("/email"));
}

#[test]
fn axum_body_rejection_renders_422() {
    assert_eq!(email_mismatch().response_status(), 422);
}

#[test]
fn actix_validation_rejection_renders_422_not_200() {
    let errors = ValidationErrors {
        fields: vec![(
            "email".to_string(),
            ViolationKind::Field(vec![FieldViolation { code: "email".to_string(), message: None }]),
        )],
    };
    let rejection = ApiResponseError::new(validation_failure(&errors));
    assert_eq!(rejection.status(), 422);
    assert_eq!(rejection.with_status(200).status(), 200);
}

#[test]
fn verbose_chain_does_not_duplicate_cause_text() {
    let inner = error("inner").with_message("im".to_string());
    let outer = error("outer").with_message("om".to_string()).with_error(inner).with_verbose();

    let response = outer.into_api_response::<()>();
    let messages: Vec<Option<&str>> = response.errors.iter().map(|e| e.message.as_deref()).collect();
    assert_eq!(messages, vec![Some("om"), Some("im")]);

    for entry in &response.errors {
        assert!(!entry.message.clone().unwrap_or_default().contains("leto error:"));
    }
    let count = response.errors.iter().filter(|e| e.message.as_deref() == Some("im")).count();
    assert_eq!(count, 1);
}

#[test]
fn non_verbose_still_reports_only_the_top_error() {
    let outer = error("outer")
        .with_message("om".to_string())
        .with_error(error("inner").with_message("im".to_string()));
    let response = outer.into_api_response::<()>();
    assert_eq!(response.errors.len(), 1);
    assert_eq!(response.first_error_code(), Some("outer"));
}

#[test]
fn format_message_verbose_still_folds_the_chain_for_logs() {
    let outer = error("outer")
        .with_message("om".to_string())
        .with_error(error("inner").with_message("im".to_string()));
    let folded = outer.format_message_verbose().expect("message");
    assert!(folded.starts_with("om"), "unexpected: {folded}");
    assert!(folded.contains("im"), "chain missing from log line: {folded}");
    assert_eq!(folded, "om, leto error: inner, message: im");
}

#[test]
fn wrapping_does_not_inherit_the_inner_status_by_default() {
    let inner = error("inner").with_status(404);
    let outer = error("outer").with_error(inner);
    assert_eq!(outer.status(), leto::DEFAULT_ERROR_STATUS);
    assert!(!outer.has_status());
}

#[test]
fn with_source_status_carries_a_nested_status_outward() {
    let inner = error("inner").with_status(404);
    let inner_status = inner.status();
    let outer = error("outer").with_error(inner).with_source_status(inner_status);
    assert_eq!(outer.status(), 404);
    assert!(outer.has_status());
}

#[test]
fn with_source_status_never_overrides_an_explicit_status() {
    let outer = error("outer").with_status(410).with_source_status(404);
    assert_eq!(outer.status(), 410);
}

#[test]
fn bool_guard_yields_unit() {
    let allowed: Result<(), _> = true.ok_or_api_error("forbidden");
    assert_eq!(allowed.expect("allowed"), ());

    let denied = false.ok_or_api_error("forbidden").expect_err("denied");
    assert_eq!(*denied.code(), "forbidden");

    let with_message = false
        .ok_or_api_error_with_message("forbidden", "not allowed".to_string())
        .expect_err("denied");
    assert_eq!(with_message.message().map(|m| m.to_string()), Some("not allowed".into()));
}

#[test]
fn bool_guard_composes_with_question_mark() {
    fn handler(is_owner: bool) -> Result<ApiResponse<u8>, ApiError> {
        is_owner.ok_or_api_error("forbidden")?;
        Ok(success(1))
    }

    assert!(handler(true).is_ok());
    assert_eq!(*handler(false).expect_err("denied").code(), "forbidden");
}

#[test]
fn an_option_guard_yields_its_value() {
    assert_eq!(Some(5).ok_or_api_error("missing").expect("present"), 5);
    let e = None::<u8>.ok_or_api_error("missing").expect_err("absent");
    assert_eq!(*e.code(), "missing");
    assert!(e.message().is_none());
    let e = None::<u8>.ok_or_api_error_with_message("missing", "no row".to_string()).expect_err("absent");
    assert_eq!(e.message().map(|m| m.as_str()), Some("no row"));
}

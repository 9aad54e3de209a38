use leto::{
    body_read_error, error, error_from_path, validation_error_messages, ApiJson, ApiResponse,
    ApiResponseError, ApiValidated, FieldViolation, PathSegment, ValidationErrors, ViolationKind,
    REJECTION_STATUS,
};

fn email_violation() -> ValidationErrors {
    ValidationErrors {
        fields: vec![(
            "email".to_string(),
            ViolationKind::Field(vec![FieldViolation { code: "email".to_string(), message: None }]),
        )],
    }
}

#[test]
fn test_extract_api_json_reports_pointer_on_bad_body() {
    let err = error_from_path(
        &vec![PathSegment::Key { key: "age".to_string() }],
        "invalid type: string \"old\", expected u8".to_string(),
    );
    let decoded: ApiResponse = err.into_api_response();
    assert_eq!(decoded.first_error_code(), Some("invalid_body"));
    assert_eq!(decoded.errors[0].source.as_ref().and_then(|s| s.pointer.as_deref()), Some("/age"));
}

#[test]
fn test_extract_api_validated_reports_field_errors() {
    let rejection = match ApiValidated::accept("nope".to_string(), Err(email_violation())) {
        Ok(_) => panic!("rejected"),
        Err(rejection) => rejection,
    };
    let decoded = rejection.response();
    assert_eq!(decoded.first_error_code(), Some("email"));
    assert_eq!(decoded.errors[0].source.as_ref().and_then(|s| s.pointer.as_deref()), Some("/email"));
    assert_eq!(rejection.status(), REJECTION_STATUS);
}

#[test]
fn test_extract_api_json_parses_valid_body() {
    let ApiJson(body) = ApiJson(30_u8);
    assert_eq!(body, 30);
    let accepted = match ApiValidated::accept(7_u8, Ok(())) {
        Ok(v) => v,
        Err(_) => panic!("valid"),
    };
    assert_eq!(*accepted.0.get(), 7);
    assert_eq!(accepted.0.into_inner(), 7);
}

#[test]
fn an_empty_path_has_no_locator() {
    let err = error_from_path(&vec![], "expected an object".to_string());
    assert!(err.error_source().is_none());
    assert_eq!(err.status(), 422);
    assert_eq!(err.message().map(|m| m.as_str()), Some("expected an object"));
}

#[test]
fn an_unreadable_body_is_rejected_without_locator() {
    let err = body_read_error("payload too large".to_string());
    assert_eq!(*err.code(), "invalid_body");
    assert_eq!(err.status(), 422);
    assert!(err.error_source().is_none());
}

#[test]
fn a_rejection_status_is_resolved() {
    let rejection = ApiResponseError::new(leto::failure::<(), ()>(vec![error("boom").into_error_message()]));
    assert_eq!(rejection.with_status(999).status(), 200);
}

#[test]
fn an_error_rejection_carries_the_error_envelope() {
    let rejection = ApiResponseError::from_error(&error("invalid_body").with_message("bad".to_string()));
    assert_eq!(rejection.status(), 422);
    assert_eq!(rejection.response().first_error_code(), Some("invalid_body"));
    assert_eq!(rejection.to_display_string(), "request validation failed");
    assert_eq!(rejection.into_response().errors.len(), 1);
}

#[test]
fn validation_messages_match_the_envelope() {
    let entries = validation_error_messages(&email_violation());
    assert_eq!(entries.len(), 1);
    assert_eq!(entries[0].code, "email");
    assert!(entries[0].message.is_none());
}

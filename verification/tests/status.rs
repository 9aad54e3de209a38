use leto::{
    error, is_valid_status, resolve_status, ApiResponse, DEFAULT_ERROR_STATUS,
    INVALID_STATUS_FALLBACK, VALID_STATUS_MAX, VALID_STATUS_MIN,
};

#[test]
fn the_default_is_200_without_the_feature() {
    assert_eq!(DEFAULT_ERROR_STATUS, 200);
    assert_eq!(error("boom").status(), 200);
}

#[test]
fn an_explicit_status_wins_over_the_default() {
    assert_eq!(error("not_found").with_status(404).status(), 404);
    assert_eq!(error("teapot").with_status(418).status(), 418);
}

#[test]
fn the_default_is_still_reported_as_unset() {
    assert!(!error("boom").has_status());
    assert!(error("boom").with_status(DEFAULT_ERROR_STATUS).has_status());
}

#[test]
fn the_feature_does_not_move_the_invalid_status_fallback() {
    assert_eq!(resolve_status(u16::MAX), 200);
    assert_eq!(resolve_status(0), 200);
}

#[test]
fn the_envelope_body_is_unchanged_by_the_flag() {
    let decoded: ApiResponse = error("boom").with_message("bad".to_string()).into_api_response();
    assert_eq!(decoded.first_error_code(), Some("boom"));
    assert!(decoded.data.is_none());
}

#[test]
fn resolving_keeps_every_status_http_defines() {
    assert_eq!(resolve_status(100), 100);
    assert_eq!(resolve_status(404), 404);
    assert_eq!(resolve_status(599), 599);
    assert_eq!(resolve_status(99), INVALID_STATUS_FALLBACK);
    assert_eq!(resolve_status(600), INVALID_STATUS_FALLBACK);
    assert_eq!(resolve_status(999), 200);
}

#[test]
fn resolving_twice_changes_nothing() {
    for status in [0u16, 1, 99, 100, 200, 451, 599, 600, 1000, u16::MAX] {
        let once = resolve_status(status);
        assert!(is_valid_status(once));
        assert_eq!(resolve_status(once), once);
        assert!(once < 500 || is_valid_status(status));
    }
}

#[test]
fn the_valid_range_is_the_five_classes() {
    assert_eq!(VALID_STATUS_MIN, 100);
    assert_eq!(VALID_STATUS_MAX, 599);
    assert!(!is_valid_status(99));
    assert!(is_valid_status(100));
    assert!(is_valid_status(599));
    assert!(!is_valid_status(600));
}

#[test]
fn an_error_answers_with_its_resolved_status() {
    assert_eq!(error("boom").response_status(), DEFAULT_ERROR_STATUS);
    assert_eq!(error("gone").with_status(410).response_status(), 410);
    assert_eq!(error("gone").with_source_status(700).response_status(), 200);
}

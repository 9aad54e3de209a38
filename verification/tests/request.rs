use leto::{adopted_request_id, RequestIdExtractionError, RootSpanExtractionError, X_REQUEST_ID};

#[test]
fn a_uuid_header_is_adopted() {
    let id = adopted_request_id(Some("550e8400-e29b-41d4-a716-446655440000"));
    assert_eq!(id, Some(0x550e8400_e29b_41d4_a716_446655440000_u128));
}

#[test]
fn the_header_is_trimmed_before_parsing() {
    let id = adopted_request_id(Some("  550e8400-e29b-41d4-a716-446655440000 \t"));
    assert_eq!(id, Some(0x550e8400_e29b_41d4_a716_446655440000_u128));
}

#[test]
fn anything_else_asks_for_a_fresh_id() {
    assert_eq!(adopted_request_id(Some("not-a-uuid")), None);
    assert_eq!(adopted_request_id(Some("")), None);
    assert_eq!(adopted_request_id(None), None);
    assert_eq!(X_REQUEST_ID, "x-request-id");
}

#[test]
fn extraction_errors_render_their_text() {
    assert_eq!(
        RootSpanExtractionError::new().to_display_string(),
        "Failed to retrieve the root span from request-local storage."
    );
    assert_eq!(
        RequestIdExtractionError::new().to_display_string(),
        "Failed to retrieve request id from request-local storage."
    );
}

#[test]
fn a_root_span_hands_its_span_back() {
    let root = leto::RootSpan::new(tracing::Span::none());
    assert!(root.span().is_none());
    assert!(root.clone().into_span().is_none());
    let stream = leto::StreamSpan::new(7_u8, tracing::Span::none());
    let (body, span) = stream.into_parts();
    assert_eq!(body, 7);
    assert!(span.is_none());
}

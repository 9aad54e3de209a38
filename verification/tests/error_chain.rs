use leto::{error, ApiResponse, ForeignError, WithErrorCode, WrapApiError};

#[test]
fn test_api_error_chain_len() {
    let root: Result<(), ForeignError> =
        Err(ForeignError::new("root error".to_string()).with_context("just report".to_string()));
    let api = root.wrap_api_error_and_message("api error", "and message".to_string()).expect_err("failed");
    let callback = error("api error in callback").with_error(api);
    let err: Result<(), leto::ApiError> = Err(error("just api error").with_error(callback).with_verbose());

    let resp: ApiResponse = err.into();
    assert_eq!(resp.errors.len(), 3);
}

#[test]
fn test_api_error_chain() {
    {
        let err: Result<(), leto::ApiError> = Err(error("err_code").with_error(error("foo_err")).with_verbose());
        let resp: ApiResponse = err.into();
        assert_eq!(resp.errors.len(), 2);
        assert!(resp.has_error_code("foo_err").is_some());
    }

    {
        let wrap_err = error("foo_err");
        let resp: ApiResponse = (&wrap_err).into();
        assert_eq!(resp.errors.len(), 1);
        assert!(resp.has_error_code("foo_err").is_some());
    }

    {
        let e = error("error_code").with_message("z_message".to_string());
        let d = error("d_err").with_error(e);
        let b = error("b_err").with_error(d).with_foreign(ForeignError::new("c_err".to_string()));
        let a = error("a_err").with_error(b);
        let err: Result<(), leto::ApiError> = Err(error("api error").with_error(a).with_verbose());
        let resp: ApiResponse = err.into();
        assert_eq!(resp.errors.len(), 5);
        assert!(resp.has_error_code("b_err").is_some());
        let b_entry = resp.has_error_code("b_err").expect("b_err");
        assert_eq!(b_entry.message.as_deref(), Some("c_err"));
    }
}

#[test]
fn test_response_top_only_by_default() {
    let outer = error("outer_err").with_error(error("inner_err"));

    let default = outer.into_api_response::<()>();
    assert_eq!(default.errors.len(), 1);
    assert_eq!(default.errors[0].code, "outer_err");
    assert!(default.has_error_code("inner_err").is_none());

    let verbose = outer.with_verbose().into_api_response::<()>();
    assert_eq!(verbose.errors.len(), 2);
    assert!(verbose.has_error_code("outer_err").is_some());
    assert!(verbose.has_error_code("inner_err").is_some());
}

#[test]
fn foreign_causes_fold_into_the_entry_above_them() {
    let cause = ForeignError::new("disk full".to_string()).with_context("write failed".to_string());
    let err = error("internal").with_message("could not save".to_string()).with_foreign(cause).with_verbose();
    let resp: ApiResponse = err.into();
    assert_eq!(resp.errors.len(), 1);
    assert_eq!(
        resp.errors[0].message.as_deref(),
        Some("could not save, write failed, disk full")
    );
}

#[test]
fn a_text_already_in_the_message_is_not_repeated() {
    let err = error("internal")
        .with_message("disk full".to_string())
        .with_foreign(ForeignError::new("disk full".to_string()))
        .with_verbose();
    let resp: ApiResponse = err.into();
    assert_eq!(resp.errors[0].message.as_deref(), Some("disk full"));
}

#[test]
fn a_foreign_cause_gives_a_message_to_an_entry_without_one() {
    let err = error("internal").with_foreign(ForeignError::new("timeout".to_string())).with_verbose();
    let resp: ApiResponse = err.into();
    assert_eq!(resp.errors[0].message.as_deref(), Some("timeout"));
    assert_eq!(resp.first_error_code(), Some("internal"));
    assert_eq!(resp.last_error_code(), Some("internal"));
}

#[test]
fn display_renders_the_error() {
    assert_eq!(error("boom").display_string(), "leto error: boom");
    assert_eq!(error("boom").with_message("bad".to_string()).display_string(), "leto error: boom, message: bad");
    let nested = error("outer")
        .with_message("om".to_string())
        .with_foreign(ForeignError::new("io".to_string()))
        .with_verbose();
    assert_eq!(nested.display_string(), "leto error: outer, message: om, io");
    assert_eq!(nested.format_message().as_deref(), Some("om, io"));
}

#[test]
fn builders_fill_the_rfc_fields_and_locator() {
    let err = error("bad")
        .with_type("https://example.com/bad".to_string())
        .with_instance("req-9".to_string())
        .with_pointer("/a".to_string())
        .with_parameter("q".to_string());
    assert_eq!(err.type_uri().map(|s| s.as_str()), Some("https://example.com/bad"));
    assert_eq!(err.instance().map(|s| s.as_str()), Some("req-9"));
    let source = err.error_source().expect("locator");
    assert_eq!(source.pointer.as_deref(), Some("/a"));
    assert_eq!(source.parameter.as_deref(), Some("q"));
    let entry = err.to_error_message();
    assert_eq!(entry.type_uri.as_deref(), Some("https://example.com/bad"));
    assert_eq!(entry.instance.as_deref(), Some("req-9"));
}

#[test]
fn collect_messages_lists_the_chain_in_order() {
    let err = error("a")
        .with_error(error("b").with_error(error("c")))
        .with_error(error("d"));
    let codes: Vec<String> = err.collect_messages().into_iter().map(|m| m.code).collect();
    assert_eq!(codes, vec!["a", "d", "b", "c"]);
}

#[test]
fn wrap_error_keeps_the_cause() {
    let e = leto::wrap_error(ForeignError::new("io".to_string()), "storage", "cannot read".to_string());
    assert_eq!(*e.code(), "storage");
    assert_eq!(e.message().map(|m| m.as_str()), Some("cannot read"));
    assert!(e.source().is_some());
    let e2 = leto::error_and_message("storage", "cannot read".to_string());
    assert!(e2.source().is_none());
}

#[test]
fn test_api_error_clone() {
    let err = ForeignError::new("some error".to_string())
        .with_context("message error".to_string())
        .with_error_code("err_code")
        .with_error(error("foo_err"))
        .with_error(error("bar_err").with_error(error("baz_err")))
        .with_status(409)
        .with_verbose();

    let err2 = err.clone();

    assert_eq!(err.display_string(), err2.display_string());
    assert_eq!(err2.status(), 409);
    let a: ApiResponse = (&err).into();
    let b: ApiResponse = (&err2).into();
    assert_eq!(a, b);
    assert_eq!(a.errors.len(), 4);
}

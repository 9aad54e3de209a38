use leto::{
    error, plan_dispatch, ApiErrorCode, ApiErrorStatus, ApiResponse, DeclaredCode, DispatchError,
    IntoApiError, MessageVariant, OkOrError, VariantFields, WrapApiError, DEFAULT_ERROR_STATUS,
};
use leto::declared::{
    declares_statuses, find_catch_all, runtime_path, underscore_name, variant_error, CatchAllError, CrateFound,
};

fn variant(name: &str, code: Option<&str>, fields: VariantFields) -> MessageVariant {
    MessageVariant { name: name.to_string(), code: code.map(|c| c.to_string()), fields }
}

fn declared(name: &str, code: Option<&str>, message: Option<&str>, status: Option<u16>) -> DeclaredCode {
    DeclaredCode {
        name: name.to_string(),
        code: code.map(|c| c.to_string()),
        message: message.map(|m| m.to_string()),
        status,
    }
}

#[test]
fn error_message_roundtrips_into_a_typed_error() {
    let plan = plan_dispatch(&vec![
        variant("CoolError", Some("friend_invite_not_exist"), VariantFields::Unnamed(1)),
        variant("Other", Some("_"), VariantFields::Unnamed(1)),
    ])
    .expect("valid");
    let resp: Result<ApiResponse<()>, _> =
        error("friend_invite_not_exist").with_message("some message".to_string()).err();
    let decoded: ApiResponse = match resp {
        Ok(r) => r,
        Err(e) => e.into(),
    };
    assert_eq!(decoded.errors.len(), 1);
    let err = decoded.err().expect("error");
    assert_eq!(err.code, "friend_invite_not_exist");
    assert_eq!(err.message.as_deref(), Some("some message"));
    assert_eq!(plan.dispatch_message(err), 0);
    assert_eq!(plan.dispatch_error(&error("friend_invite_not_exist")), 0);
    assert_eq!(plan.dispatch_error(&error("something_else")), 1);
}

#[test]
fn the_catch_all_never_shadows_a_concrete_code() {
    let plan = plan_dispatch(&vec![
        variant("Other", Some("_"), VariantFields::Unnamed(1)),
        variant("NotFound", Some("not_found"), VariantFields::Named(1)),
        variant("Gone", Some("gone"), VariantFields::Unnamed(1)),
        variant("AlsoGone", Some("gone"), VariantFields::Unnamed(1)),
    ])
    .expect("valid");
    assert_eq!(plan.dispatch("not_found"), 1);
    assert_eq!(plan.dispatch("gone"), 2);
    assert_eq!(plan.dispatch("teapot"), 0);
    assert_eq!(plan.dispatch("_"), 0);
}

#[test]
fn a_plan_needs_codes_single_fields_and_one_catch_all() {
    assert_eq!(
        plan_dispatch(&vec![variant("A", None, VariantFields::Unnamed(1))]),
        Err(DispatchError::MissingCode(0))
    );
    assert_eq!(
        plan_dispatch(&vec![
            variant("A", Some("a"), VariantFields::Unnamed(1)),
            variant("B", Some("b"), VariantFields::Unit),
        ]),
        Err(DispatchError::UnitVariant(1))
    );
    assert_eq!(
        plan_dispatch(&vec![variant("A", Some("a"), VariantFields::Unnamed(2))]),
        Err(DispatchError::FieldCount(0))
    );
    assert_eq!(
        plan_dispatch(&vec![variant("A", Some("a"), VariantFields::Named(0))]),
        Err(DispatchError::FieldCount(0))
    );
    assert_eq!(
        plan_dispatch(&vec![
            variant("A", Some("_"), VariantFields::Unnamed(1)),
            variant("B", Some("b"), VariantFields::Unnamed(1)),
            variant("C", Some("_"), VariantFields::Unnamed(1)),
        ]),
        Err(DispatchError::DuplicateCatchAll(0, 2))
    );
    assert_eq!(
        plan_dispatch(&vec![variant("A", Some("a"), VariantFields::Unnamed(1))]),
        Err(DispatchError::NoCatchAll)
    );
    assert_eq!(plan_dispatch(&vec![]), Err(DispatchError::NoCatchAll));
}

#[test]
fn a_declared_code_defaults_to_its_variant_name() {
    assert_eq!(declared("NotFound", None, None, None).code_string(), "NotFound");
    assert_eq!(declared("NotFound", Some("user_not_found"), None, None).code_string(), "user_not_found");
}

#[test]
fn a_declared_code_raises_its_message_and_status() {
    let e = declared("NotFound", Some("not_found"), Some("order 7 not found"), Some(404)).into_api_error();
    assert_eq!(e.message().map(|m| m.as_str()), Some("order 7 not found"));
    assert_eq!(e.status(), 404);
    assert_eq!(e.display_string(), "leto error: not_found, message: order 7 not found");

    let plain = declared("Paid", Some("order.already_paid"), None, None).into_api_error();
    assert!(plain.message().is_none());
    assert!(!plain.has_status());
}

#[test]
fn a_declared_status_maps_the_code() {
    assert_eq!(declared("A", None, None, Some(409)).status_code(), 409);
    assert_eq!(declared("A", None, None, None).status_code(), DEFAULT_ERROR_STATUS);
    let e = error(declared("A", None, None, Some(409))).with_code_status();
    assert_eq!(e.status(), 409);
    assert!(declares_statuses(&vec![declared("A", None, None, None), declared("B", None, None, Some(500))]));
    assert!(!declares_statuses(&vec![declared("A", None, None, None)]));
}

#[test]
fn ok_or_api_code_applies_the_declared_message() {
    let missing: Option<u32> = None;
    let err = missing
        .ok_or_api_code(declared("NotFound", Some("not_found"), Some("user was not found"), None))
        .expect_err("absent");
    assert_eq!(err.message().map(|m| m.as_str()), Some("user was not found"));
    assert_eq!(Some(3).ok_or_api_code(declared("NotFound", None, None, None)).expect("present"), 3);
}

#[test]
fn wrap_api_code_applies_the_declared_message_and_keeps_the_cause() {
    let failed: Result<(), leto::ForeignError> = Err(leto::ForeignError::new("disk".to_string()));
    let err = failed
        .wrap_api_code(declared("Internal", Some("internal"), Some("the request could not be completed"), None))
        .expect_err("wrapped");
    assert_eq!(err.message().map(|m| m.as_str()), Some("the request could not be completed"));
    assert!(err.source().is_some());
}

fn error_variant(code: Option<&str>, catch_all: bool, fields: VariantFields) -> leto::declared::ErrorVariant {
    leto::declared::ErrorVariant {
        name: "V".to_string(),
        code: code.map(|c| c.to_string()),
        catch_all,
        fields,
    }
}

#[test]
fn an_error_enum_has_exactly_one_positional_catch_all() {
    assert_eq!(
        find_catch_all(&vec![error_variant(Some("a"), false, VariantFields::Unit)]),
        Err(CatchAllError::Missing)
    );
    assert_eq!(find_catch_all(&vec![]), Err(CatchAllError::Missing));
    assert_eq!(
        find_catch_all(&vec![
            error_variant(Some("a"), false, VariantFields::Unit),
            error_variant(Some("internal"), true, VariantFields::Unnamed(1)),
        ]),
        Ok(1)
    );
    assert_eq!(
        find_catch_all(&vec![error_variant(Some("internal"), true, VariantFields::Named(1))]),
        Err(CatchAllError::NotPositional(0))
    );
    assert_eq!(
        find_catch_all(&vec![
            error_variant(Some("a"), true, VariantFields::Unnamed(1)),
            error_variant(Some("b"), false, VariantFields::Unit),
            error_variant(Some("c"), true, VariantFields::Unit),
        ]),
        Err(CatchAllError::Repeated(vec![0, 2]))
    );
}

#[test]
fn an_error_variant_maps_onto_its_code_and_rendering() {
    let e = variant_error(&error_variant(Some("forbidden"), false, VariantFields::Unit), "access denied".to_string())
        .expect("mapped");
    assert_eq!(e.code(), "forbidden");
    assert_eq!(e.message().map(|m| m.as_str()), Some("access denied"));
    assert!(variant_error(&error_variant(None, false, VariantFields::Unit), "x".to_string()).is_none());
}

#[test]
fn the_runtime_crate_is_reached_through_the_facade_first() {
    assert_eq!(runtime_path(&CrateFound::Name("leto".to_string()), &CrateFound::Missing), "::leto");
    assert_eq!(runtime_path(&CrateFound::Name("my-leto".to_string()), &CrateFound::Itself), "::my_leto");
    assert_eq!(runtime_path(&CrateFound::Missing, &CrateFound::Name("leto-core".to_string())), "::leto_core");
    assert_eq!(runtime_path(&CrateFound::Missing, &CrateFound::Itself), "::leto_core");
    assert_eq!(runtime_path(&CrateFound::Itself, &CrateFound::Missing), "::leto");
    assert_eq!(runtime_path(&CrateFound::Missing, &CrateFound::Missing), "::leto");
    assert_eq!(underscore_name("a-b-c"), "a_b_c");
}

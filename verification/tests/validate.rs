use leto::{
    validation_error_messages, validation_failure, FieldViolation, Validated, ValidationErrors,
    ViolationKind,
};

fn rule(code: &str, message: Option<&str>) -> FieldViolation {
    FieldViolation { code: code.to_string(), message: message.map(|m| m.to_string()) }
}

fn pointer_of(entry: &leto::ErrorMessage) -> Option<&str> {
    entry.source.as_ref().and_then(|s| s.pointer.as_deref())
}

#[test]
fn nested_structs_and_lists_shape_the_pointer() {
    let address = ValidationErrors {
        fields: vec![("zip".to_string(), ViolationKind::Field(vec![rule("length", Some("too short"))]))],
    };
    let item = ValidationErrors {
        fields: vec![("name".to_string(), ViolationKind::Field(vec![rule("required", None)]))],
    };
    let errors = ValidationErrors {
        fields: vec![
            ("email".to_string(), ViolationKind::Field(vec![rule("email", None), rule("length", None)])),
            ("address".to_string(), ViolationKind::Struct(Box::new(address))),
            ("items".to_string(), ViolationKind::List(vec![(0, item)])),
            ("a/b".to_string(), ViolationKind::Field(vec![rule("range", None)])),
        ],
    };
    let entries = validation_error_messages(&errors);
    let got: Vec<(&str, Option<&str>)> = entries.iter().map(|e| (e.code.as_str(), pointer_of(e))).collect();
    assert_eq!(
        got,
        vec![
            ("email", Some("/email")),
            ("length", Some("/email")),
            ("length", Some("/address/zip")),
            ("required", Some("/items/0/name")),
            ("range", Some("/a~1b")),
        ]
    );
    assert_eq!(entries[2].message.as_deref(), Some("too short"));
    let source = entries[0].source.as_ref().expect("locator");
    assert!(source.parameter.is_none() && source.header.is_none());
}

#[test]
fn list_elements_keep_their_index() {
    let element = |code: &str| ValidationErrors {
        fields: vec![("qty".to_string(), ViolationKind::Field(vec![rule(code, None)]))],
    };
    let errors = ValidationErrors {
        fields: vec![("lines".to_string(), ViolationKind::List(vec![(2, element("min")), (11, element("max"))]))],
    };
    let entries = validation_error_messages(&errors);
    let pointers: Vec<Option<&str>> = entries.iter().map(pointer_of).collect();
    assert_eq!(pointers, vec![Some("/lines/2/qty"), Some("/lines/11/qty")]);
}

#[test]
fn no_violation_gives_no_entry() {
    let errors = ValidationErrors { fields: vec![] };
    assert!(validation_error_messages(&errors).is_empty());
    let failure = validation_failure(&ValidationErrors {
        fields: vec![("x".to_string(), ViolationKind::Field(vec![rule("r", None)]))],
    });
    assert!(failure.data.is_none());
    assert_eq!(failure.errors.len(), 1);
}

#[test]
fn validated_is_only_built_from_a_passed_validation() {
    let ok = Validated::new(5_u8, Ok(()));
    assert_eq!(ok.expect("valid").into_inner(), 5);
    let bad = Validated::new(
        5_u8,
        Err(ValidationErrors { fields: vec![("v".to_string(), ViolationKind::Field(vec![rule("range", None)]))] }),
    );
    let envelope = bad.expect_err("invalid");
    assert_eq!(envelope.first_error_code(), Some("range"));
}

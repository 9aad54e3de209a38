use leto::json::{WireKey, WireValue};
use leto::{ApiResponse, ErrorMessage, ErrorSource};

fn meta_k1() -> serde_json::Value {
    let mut map = serde_json::Map::new();
    map.insert("k".to_string(), serde_json::Value::from(1));
    serde_json::Value::Object(map)
}

fn full() -> ErrorMessage {
    ErrorMessage {
        code: "c".to_string(),
        message: Some("m".to_string()),
        meta: Some(meta_k1()),
        ..Default::default()
    }
}

fn bare() -> ErrorMessage {
    ErrorMessage { code: "c".to_string(), message: None, meta: None, ..Default::default() }
}

fn keys(fields: &[(WireKey, WireValue)]) -> Vec<&'static str> {
    fields.iter().map(|(k, _)| k.as_str()).collect()
}

#[test]
fn into_iterator_yields_itself_once() {
    let items: Vec<ErrorMessage> = full().into_iter().collect();
    assert_eq!(items.len(), 1);
    assert_eq!(items[0].code, "c");
}

#[test]
fn display_renders_code_and_message() {
    assert_eq!(full().to_display_string(), "leto error: c, message: m");
    assert_eq!(bare().to_display_string(), "leto error: c");
}

#[test]
fn display_omits_an_empty_message() {
    let empty = ErrorMessage { code: "c".to_string(), message: Some(String::new()), ..Default::default() };
    assert_eq!(empty.to_display_string(), "leto error: c");
}

#[test]
fn into_response_builds_failure() {
    let resp: ApiResponse<i32> = full().into_response();
    assert_eq!(resp.first_error_code(), Some("c"));
    assert!(resp.ok().is_none());
}

#[test]
fn to_error_message_clones() {
    let m = full();
    assert_eq!(m.to_error_message(), m);
}

#[test]
fn wire_fields_skip_unset_fields() {
    assert_eq!(keys(&bare().to_wire_fields()), vec!["code"]);
    let fields = full().to_wire_fields();
    assert_eq!(keys(&fields), vec!["code", "message", "meta"]);
    match &fields[1].1 {
        WireValue::Text(m) => assert_eq!(m, "m"),
        _ => panic!("message is text"),
    }
    match &fields[2].1 {
        WireValue::Json(v) => assert_eq!(v, &meta_k1()),
        _ => panic!("meta is raw json"),
    }
}

#[test]
fn wire_fields_drop_an_empty_locator() {
    let with_empty = ErrorMessage { code: "c".to_string(), source: Some(ErrorSource::new()), ..Default::default() };
    assert_eq!(keys(&with_empty.to_wire_fields()), vec!["code"]);

    let located = ErrorMessage {
        code: "c".to_string(),
        type_uri: Some("https://example.com/e".to_string()),
        instance: Some("req-1".to_string()),
        source: Some(ErrorSource::new().with_pointer("/a".to_string()).with_header("h".to_string())),
        ..Default::default()
    };
    let fields = located.to_wire_fields();
    assert_eq!(keys(&fields), vec!["code", "type", "instance", "source"]);
    match &fields[3].1 {
        WireValue::Object(inner) => assert_eq!(keys(inner), vec!["pointer", "header"]),
        _ => panic!("source is an object"),
    }
}

#[test]
fn an_error_source_is_empty_until_a_field_is_set() {
    assert!(ErrorSource::new().is_empty());
    assert!(!ErrorSource::new().with_parameter("page".to_string()).is_empty());
    let s = ErrorSource::new().with_pointer("/x".to_string()).with_parameter("p".to_string());
    assert_eq!(s.pointer.as_deref(), Some("/x"));
    assert_eq!(s.parameter.as_deref(), Some("p"));
    assert_eq!(s.header, None);
}

use leto::pointer::{decimal_string, escape_token};
use leto::{json_pointer, PathSegment};

#[test]
fn escape_token_escapes_tilde_then_slash() {
    assert_eq!(escape_token("plain"), "plain");
    assert_eq!(escape_token("a/b"), "a~1b");
    assert_eq!(escape_token("a~b"), "a~0b");
    assert_eq!(escape_token("~/"), "~0~1");
    assert_eq!(escape_token("~1"), "~01");
    assert_eq!(escape_token(""), "");
    assert_eq!(escape_token("ünï/cödé"), "ünï~1cödé");
}

#[test]
fn decimal_renders_without_leading_zeros() {
    assert_eq!(decimal_string(0), "0");
    assert_eq!(decimal_string(7), "7");
    assert_eq!(decimal_string(10), "10");
    assert_eq!(decimal_string(1203), "1203");
    assert_eq!(decimal_string(u64::MAX), u64::MAX.to_string());
}

#[test]
fn json_pointer_joins_the_segments() {
    let path = vec![
        PathSegment::Key { key: "data".to_string() },
        PathSegment::Index { index: 3 },
        PathSegment::Variant { variant: "a/b".to_string() },
        PathSegment::Unknown,
    ];
    assert_eq!(json_pointer(&path).as_deref(), Some("/data/3/a~1b/?"));
    assert_eq!(json_pointer(&vec![]), None);
    assert_eq!(json_pointer(&vec![PathSegment::Key { key: String::new() }]).as_deref(), Some("/"));
}

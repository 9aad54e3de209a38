use leto::declared::declare_code;
use leto::template::render_message;
use leto::{ApiErrorCode, IntoApiError};

fn fields(pairs: &[(&str, &str)]) -> Vec<(String, String)> {
    pairs.iter().map(|(k, v)| (k.to_string(), v.to_string())).collect()
}

#[test]
fn placeholders_take_the_field_values() {
    let f = fields(&[("id", "7"), ("arg_0", "alice")]);
    assert_eq!(render_message("order {id} not found", &f).as_deref(), Some("order 7 not found"));
    assert_eq!(render_message("{arg_0}/{id}", &f).as_deref(), Some("alice/7"));
    assert_eq!(render_message("no fields", &f).as_deref(), Some("no fields"));
    assert_eq!(render_message("", &f).as_deref(), Some(""));
}

#[test]
fn doubled_braces_are_literal() {
    let f = fields(&[("x", "1")]);
    assert_eq!(render_message("{{x}} is {x}", &f).as_deref(), Some("{x} is 1"));
    assert_eq!(render_message("}}{{", &f).as_deref(), Some("}{"));
}

#[test]
fn anything_else_is_not_rendered() {
    let f = fields(&[("x", "1")]);
    assert_eq!(render_message("{y}", &f), None);
    assert_eq!(render_message("{}", &f), None);
    assert_eq!(render_message("{x", &f), None);
    assert_eq!(render_message("x}", &f), None);
    assert_eq!(render_message("{x:?}", &f), None);
    assert_eq!(render_message("{:?}", &fields(&[(":?", "1")])), None);
    assert_eq!(render_message("{x{y}", &f), None);
}

#[test]
fn format_specs_take_the_value_given_for_them() {
    let f = fields(&[("id", "7"), ("id:?", "Id(7)"), ("name:>5", "  bob")]);
    assert_eq!(render_message("{id} {id:?}", &f).as_deref(), Some("7 Id(7)"));
    assert_eq!(render_message("[{name:>5}]", &f).as_deref(), Some("[  bob]"));
}

#[test]
fn a_declared_code_renders_its_template() {
    let d = declare_code(
        "NotFound".to_string(),
        Some("order.not_found".to_string()),
        Some("order {id} not found"),
        &fields(&[("id", "42")]),
        Some(404),
    )
    .expect("rendered");
    assert_eq!(d.code_string(), "order.not_found");
    let e = d.into_api_error();
    assert_eq!(e.message().map(|m| m.as_str()), Some("order 42 not found"));
    assert_eq!(e.status(), 404);
    assert!(declare_code("A".to_string(), None, Some("{missing}"), &vec![], None).is_none());
    let plain = declare_code("Paid".to_string(), None, None, &vec![], None).expect("declared");
    assert!(plain.message.is_none());
}

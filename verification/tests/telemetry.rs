use leto::error;
use leto::telemetry::{
    header_field_value, http_flavor, http_method_str, otel_name, otel_status_code, request_end,
    request_host, request_scheme, HeaderText, HttpMethod, HttpVersion, LogLevel, RequestEnd,
};
use leto::ForeignError;

#[test]
fn methods_and_versions_are_named() {
    assert_eq!(http_method_str(&HttpMethod::Post), "POST");
    assert_eq!(http_method_str(&HttpMethod::Options), "OPTIONS");
    assert_eq!(http_method_str(&HttpMethod::Other("PURGE".to_string())), "PURGE");
    assert_eq!(http_flavor(&HttpVersion::Http11), "1.1");
    assert_eq!(http_flavor(&HttpVersion::Http2), "2.0");
    assert_eq!(http_flavor(&HttpVersion::Http09), "0.9");
}

#[test]
fn host_and_scheme_fall_back_in_order() {
    assert_eq!(request_host(Some("api.example"), Some("header.example")), "api.example");
    assert_eq!(request_host(None, Some("header.example")), "header.example");
    assert_eq!(request_host(None, None), "");
    assert_eq!(request_scheme(None, Some("https")), "https");
    assert_eq!(request_scheme(Some("http"), Some("https")), "http");
}

#[test]
fn only_server_errors_fail_the_span() {
    assert_eq!(otel_status_code(200), "OK");
    assert_eq!(otel_status_code(404), "OK");
    assert_eq!(otel_status_code(499), "OK");
    assert_eq!(otel_status_code(500), "ERROR");
    assert_eq!(otel_status_code(599), "ERROR");
    assert_eq!(otel_status_code(600), "OK");
    assert_eq!(otel_name("GET", "/users/7"), "HTTP GET /users/7");
}

#[test]
fn falls_back_on_a_non_utf8_header() {
    assert_eq!(header_field_value(&HeaderText::NonUtf8).as_deref(), Some("[non-UTF8]"));
    assert_eq!(header_field_value(&HeaderText::Text("curl/8".to_string())).as_deref(), Some("curl/8"));
    assert_eq!(header_field_value(&HeaderText::Absent), None);
}

#[test]
fn the_logger_sees_the_source_chain() {
    let plain = error("user_not_found").with_message("no such user".to_string()).severity_record();
    assert_eq!(plain.level, LogLevel::Debug);
    assert_eq!(plain.code, "user_not_found");
    assert_eq!(plain.message, "no such user");
    assert_eq!(plain.cause, None);

    let failed = error("internal")
        .with_message("save failed".to_string())
        .with_foreign(ForeignError::new("disk full".to_string()))
        .severity_record();
    assert_eq!(failed.level, LogLevel::Error);
    assert_eq!(failed.message, "save failed, disk full");
    assert_eq!(failed.cause, Some(vec!["disk full".to_string()]));

    let nested = error("outer")
        .with_error(error("inner").with_message("im".to_string()))
        .with_foreign(ForeignError::new("io".to_string()))
        .record_at(LogLevel::Debug);
    assert_eq!(nested.cause, Some(vec!["io".to_string(), "leto error: inner, message: im".to_string()]));

    let info = error("x").record_at(LogLevel::Info);
    assert_eq!(info.level, LogLevel::Info);
    assert_eq!(info.message, "");
    assert_eq!(info.cause, None);
}

#[test]
fn the_request_end_logs_errors_only_when_there_are_some() {
    assert_eq!(request_end(false, false), RequestEnd::LogSuccess);
    assert_eq!(request_end(false, true), RequestEnd::LogError);
    assert_eq!(request_end(true, false), RequestEnd::LogError);
}

//! What the request middleware records: the field values of the per-request
//! span, the span's outcome, and how an error is logged.

use crate::code::ApiErrorCode;
use crate::error::{
    cause_display_string, spec_cause_display, spec_format_message, spec_format_message_verbose, strs_view, ApiError,
    Cause,
};
use crate::error_message::opt_str;
use vstd::prelude::*;

verus! {

/// An HTTP request method.
#[derive(Debug, Clone, PartialEq)]
pub enum HttpMethod {
    Options,
    Get,
    Post,
    Put,
    Delete,
    Head,
    Trace,
    Connect,
    Patch,
    /// An extension method, by its name.
    Other(String),
}

/// The name a method is recorded under.
pub open spec fn method_name(m: HttpMethod) -> Seq<char> {
    match m {
        HttpMethod::Options => "OPTIONS"@,
        HttpMethod::Get => "GET"@,
        HttpMethod::Post => "POST"@,
        HttpMethod::Put => "PUT"@,
        HttpMethod::Delete => "DELETE"@,
        HttpMethod::Head => "HEAD"@,
        HttpMethod::Trace => "TRACE"@,
        HttpMethod::Connect => "CONNECT"@,
        HttpMethod::Patch => "PATCH"@,
        HttpMethod::Other(name) => name@,
    }
}

/// The name a method is recorded under: the standard methods by their
/// upper-case name, an extension method by its own.
pub fn http_method_str(method: &HttpMethod) -> (r: String)
    ensures
        r@ == method_name(*method),
{
    match method {
        HttpMethod::Options => String::from_str("OPTIONS"),
        HttpMethod::Get => String::from_str("GET"),
        HttpMethod::Post => String::from_str("POST"),
        HttpMethod::Put => String::from_str("PUT"),
        HttpMethod::Delete => String::from_str("DELETE"),
        HttpMethod::Head => String::from_str("HEAD"),
        HttpMethod::Trace => String::from_str("TRACE"),
        HttpMethod::Connect => String::from_str("CONNECT"),
        HttpMethod::Patch => String::from_str("PATCH"),
        HttpMethod::Other(name) => name.clone(),
    }
}

/// An HTTP protocol version.
#[derive(Debug, Clone, PartialEq)]
pub enum HttpVersion {
    Http09,
    Http10,
    Http11,
    Http2,
    Http3,
    /// Any other version, by its debug rendering.
    Other(String),
}

/// The flavor a version is recorded as.
pub open spec fn flavor_name(v: HttpVersion) -> Seq<char> {
    match v {
        HttpVersion::Http09 => "0.9"@,
        HttpVersion::Http10 => "1.0"@,
        HttpVersion::Http11 => "1.1"@,
        HttpVersion::Http2 => "2.0"@,
        HttpVersion::Http3 => "3.0"@,
        HttpVersion::Other(name) => name@,
    }
}

/// The `http.flavor` of a version: `0.9`, `1.0`, `1.1`, `2.0`, `3.0`, or the
/// debug rendering of any other.
pub fn http_flavor(version: &HttpVersion) -> (r: String)
    ensures
        r@ == flavor_name(*version),
{
    match version {
        HttpVersion::Http09 => String::from_str("0.9"),
        HttpVersion::Http10 => String::from_str("1.0"),
        HttpVersion::Http11 => String::from_str("1.1"),
        HttpVersion::Http2 => String::from_str("2.0"),
        HttpVersion::Http3 => String::from_str("3.0"),
        HttpVersion::Other(name) => name.clone(),
    }
}

/// The first of two optional texts, else the empty text.
pub open spec fn first_or_empty(a: Option<Seq<char>>, b: Option<Seq<char>>) -> Seq<char> {
    match a {
        Some(x) => x,
        None => match b {
            Some(y) => y,
            None => Seq::empty(),
        },
    }
}

/// The request host for the span: the URI's host (HTTP/2 fills it from
/// `:authority`), else the `Host` header, else empty. Each is given as `None`
/// when absent or not valid text.
pub fn request_host<'a>(uri_host: Option<&'a str>, host_header: Option<&'a str>) -> (r: &'a str)
    ensures
        r@ == first_or_empty(
            match uri_host {
                Some(h) => Some(h@),
                None => None,
            },
            match host_header {
                Some(h) => Some(h@),
                None => None,
            },
        ),
{
    match uri_host {
        Some(h) => h,
        None => match host_header {
            Some(h) => h,
            None => {
                proof {
                    reveal_strlit("");
                }
                ""
            },
        },
    }
}

/// The request scheme for the span: the URI's scheme (HTTP/2), else the
/// `X-Forwarded-Proto` header a reverse proxy sets, else empty.
pub fn request_scheme<'a>(uri_scheme: Option<&'a str>, forwarded_proto: Option<&'a str>) -> (r: &'a str)
    ensures
        r@ == first_or_empty(
            match uri_scheme {
                Some(h) => Some(h@),
                None => None,
            },
            match forwarded_proto {
                Some(h) => Some(h@),
                None => None,
            },
        ),
{
    request_host(uri_scheme, forwarded_proto)
}

/// The span name of a request: `HTTP <method> <route>`.
pub open spec fn span_name(method: Seq<char>, route: Seq<char>) -> Seq<char> {
    "HTTP "@ + method + " "@ + route
}

/// The `otel.name` of a request.
pub fn otel_name(method: &str, route: &str) -> (r: String)
    ensures
        r@ == span_name(method@, route@),
{
    let mut out = String::from_str("HTTP ");
    out.append(method);
    out.append(" ");
    out.append(route);
    out
}

/// A server error: a status in the `5xx` class.
pub open spec fn is_server_error(status: u16) -> bool {
    500 <= status < 600
}

/// The `otel.status_code` of a response: `ERROR` for a server error, `OK`
/// otherwise (a client error is still `OK` at the span level).
pub fn otel_status_code(status: u16) -> (r: &'static str)
    ensures
        is_server_error(status) ==> r@ == "ERROR"@,
        !is_server_error(status) ==> r@ == "OK"@,
{
    if 500 <= status && status < 600 {
        "ERROR"
    } else {
        "OK"
    }
}

/// A request header as the span sees it.
#[derive(Debug, Clone, PartialEq)]
pub enum HeaderText {
    /// The header is not there.
    Absent,
    /// The header's value, as text.
    Text(String),
    /// The header is there but its value is not valid text.
    NonUtf8,
}

/// The value a header field is recorded with, `None` when it is not recorded.
pub open spec fn header_record(h: HeaderText) -> Option<Seq<char>> {
    match h {
        HeaderText::Absent => None,
        HeaderText::Text(s) => Some(s@),
        HeaderText::NonUtf8 => Some("[non-UTF8]"@),
    }
}

/// The value a header field is recorded with: its text, `[non-UTF8]` when it
/// is not valid text, nothing when the header is absent.
pub fn header_field_value(header: &HeaderText) -> (r: Option<String>)
    ensures
        opt_str(r) == header_record(*header),
{
    match header {
        HeaderText::Absent => None,
        HeaderText::Text(s) => Some(s.clone()),
        HeaderText::NonUtf8 => Some(String::from_str("[non-UTF8]")),
    }
}

/// What to log once a request is done.
#[derive(Debug, Clone, Copy, PartialEq, Eq, Structural)]
pub enum RequestEnd {
    /// Hand the error to the error logger.
    LogError,
    /// Note the success at debug level.
    LogSuccess,
}

/// What to log once a request is done: the error when the service failed or
/// its response carries one, the success otherwise.
pub fn request_end(service_failed: bool, response_has_error: bool) -> (r: RequestEnd)
    ensures
        r == (if service_failed || response_has_error { RequestEnd::LogError } else { RequestEnd::LogSuccess }),
{
    if service_failed || response_has_error {
        RequestEnd::LogError
    } else {
        RequestEnd::LogSuccess
    }
}

/// The severity of a log event.
#[derive(Debug, Clone, Copy, PartialEq, Eq, Structural)]
pub enum LogLevel {
    Error,
    Warn,
    Info,
    Debug,
    Trace,
}

/// One log event for an error: its level, its code, its message, and, when
/// the event records it, the error's cause chain: the rendering of each cause,
/// the most recently attached first.
#[derive(Debug, Clone, PartialEq)]
pub struct LogRecord {
    pub level: LogLevel,
    pub code: String,
    pub message: String,
    pub cause: Option<Vec<String>>,
}

/// The renderings of the causes of a chain, in chain order.
pub open spec fn cause_texts<C: ApiErrorCode>(causes: Seq<Cause<C>>) -> Seq<Seq<char>> {
    causes.map_values(|c: Cause<C>| spec_cause_display(c))
}

/// The cause chain an event records: the renderings of the causes when the
/// error has any, nothing otherwise.
pub open spec fn chain_of<C: ApiErrorCode>(causes: Seq<Cause<C>>) -> Option<Seq<Seq<char>>> {
    if causes.len() > 0 {
        Some(cause_texts(causes))
    } else {
        None
    }
}

/// An optional list of strings, seen as their characters.
pub open spec fn opt_strs(o: Option<Vec<String>>) -> Option<Seq<Seq<char>>> {
    match o {
        Some(v) => Some(strs_view(v@)),
        None => None,
    }
}

/// A message, or the empty text when there is none.
pub open spec fn or_empty(m: Option<Seq<char>>) -> Seq<char> {
    match m {
        Some(s) => s,
        None => Seq::empty(),
    }
}

/// An optional string, or the empty string.
fn string_or_empty(m: Option<String>) -> (r: String)
    ensures
        r@ == or_empty(opt_str(m)),
{
    match m {
        Some(s) => s,
        None => String::new(),
    }
}

impl<C: ApiErrorCode> ApiError<C> {
    /// The cause chain a log event records: the rendering of each cause, the
    /// most recently attached first; `None` when the error has no cause.
    pub fn cause_chain(&self) -> (r: Option<Vec<String>>)
        ensures
            opt_strs(r) == chain_of(self@.source),
    {
        match self.source() {
            None => None,
            Some(causes) => {
                let mut out: Vec<String> = Vec::new();
                let mut i: usize = 0;
                while i < causes.len()
                    invariant
                        i <= causes@.len(),
                        causes@ == self@.source,
                        strs_view(out@) == cause_texts(causes@.take(i as int)),
                    decreases causes@.len() - i,
                {
                    let ghost before = out@;
                    let text = cause_display_string(&causes[i]);
                    out.push(text);
                    proof {
                        assert(causes@.take(i + 1) =~= causes@.take(i as int).push(causes@[i as int]));
                        assert(strs_view(out@) =~= strs_view(before).push(text@));
                        assert(cause_texts(causes@.take(i + 1)) =~= cause_texts(causes@.take(i as int)).push(
                            spec_cause_display(causes@[i as int]),
                        ));
                    }
                    i = i + 1;
                }
                proof {
                    assert(causes@.take(i as int) =~= causes@);
                }
                Some(out)
            },
        }
    }

    /// The log event of an error whose severity follows the error: one with a
    /// cause chain means something failed underneath the service and is logged
    /// as an error with the cause-folded message; a plain business error is
    /// routine and logged at debug level with its own message.
    pub fn severity_record(&self) -> (r: LogRecord)
        ensures
            r.code@ == self@.code.code_view(),
            self@.source.len() > 0 ==> r.level == LogLevel::Error && r.message@ == or_empty(
                spec_format_message_verbose(*self),
            ) && opt_strs(r.cause) == Some(cause_texts(self@.source)),
            self@.source.len() == 0 ==> r.level == LogLevel::Debug && r.message@ == or_empty(
                spec_format_message(*self),
            ) && r.cause is None,
    {
        let code = self.code().code_string();
        if self.source().is_some() {
            LogRecord {
                level: LogLevel::Error,
                code,
                message: string_or_empty(self.format_message_verbose()),
                cause: self.cause_chain(),
            }
        } else {
            LogRecord { level: LogLevel::Debug, code, message: string_or_empty(self.format_message()), cause: None }
        }
    }

    /// The log event of an error at a fixed level, with the message the error
    /// shows and its cause chain, if it has one.
    pub fn record_at(&self, level: LogLevel) -> (r: LogRecord)
        ensures
            r.level == level,
            r.code@ == self@.code.code_view(),
            r.message@ == or_empty(spec_format_message(*self)),
            opt_strs(r.cause) == chain_of(self@.source),
    {
        LogRecord {
            level,
            code: self.code().code_string(),
            message: string_or_empty(self.format_message()),
            cause: self.cause_chain(),
        }
    }
}

} // verus!

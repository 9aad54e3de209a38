//! Per-request values the middleware stores for handlers: the root span, the
//! request id, and the errors an extractor answers when one is missing.

use vstd::prelude::*;

verus! {

/// `tracing::Span`, a handle to a span: carried through untouched.
#[verifier::external_type_specification]
#[verifier::external_body]
pub struct ExSpan(tracing::Span);

/// `tracing::Span::clone` (a derived `Clone`): a new handle the subscriber
/// makes for the span. Nothing is promised of it: the subscriber may hand out
/// a new id.
pub assume_specification[ <tracing::Span as Clone>::clone ](s: &tracing::Span) -> tracing::Span;

/// The root span of a request, as stored for handlers to extract.
#[derive(Clone)]
pub struct RootSpan(tracing::Span);

impl RootSpan {
    /// The span this wraps.
    pub closed spec fn span_of(self) -> tracing::Span {
        self.0
    }

    /// Wrap the root span of a request.
    pub fn new(span: tracing::Span) -> (r: Self)
        ensures
            r.span_of() == span,
    {
        RootSpan(span)
    }

    /// The wrapped span.
    pub fn span(&self) -> (r: &tracing::Span)
        ensures
            *r == self.span_of(),
    {
        &self.0
    }

    /// The wrapped span, consuming the wrapper.
    pub fn into_span(self) -> (r: tracing::Span)
        ensures
            r == self.span_of(),
    {
        self.0
    }
}

/// A response body that is polled inside the request's span.
pub struct StreamSpan<B> {
    body: B,
    span: tracing::Span,
}

impl<B> StreamSpan<B> {
    /// The body this streams.
    pub closed spec fn body_of(self) -> B {
        self.body
    }

    /// The span the body is polled in.
    pub closed spec fn span_of(self) -> tracing::Span {
        self.span
    }

    /// Stream `body` inside `span`.
    pub fn new(body: B, span: tracing::Span) -> (r: Self)
        ensures
            r.body_of() == body,
            r.span_of() == span,
    {
        StreamSpan { body, span }
    }

    /// The body and the span, apart.
    pub fn into_parts(self) -> (r: (B, tracing::Span))
        ensures
            r.0 == self.body_of(),
            r.1 == self.span_of(),
    {
        (self.body, self.span)
    }
}

/// A handler asked for the root span, but no middleware stored one.
#[derive(Debug)]
pub struct RootSpanExtractionError {
    _priv: (),
}

impl RootSpanExtractionError {
    /// The error a handler gets when no root span was stored.
    pub fn new() -> (r: Self) {
        RootSpanExtractionError { _priv: () }
    }

    /// How the error renders.
    pub fn to_display_string(&self) -> (r: String)
        ensures
            r@ == "Failed to retrieve the root span from request-local storage."@,
    {
        String::from_str("Failed to retrieve the root span from request-local storage.")
    }
}

/// A handler asked for the request id, but no middleware stored one.
#[derive(Debug)]
pub struct RequestIdExtractionError {
    _priv: (),
}

impl RequestIdExtractionError {
    /// The error a handler gets when no request id was stored.
    pub fn new() -> (r: Self) {
        RequestIdExtractionError { _priv: () }
    }

    /// How the error renders.
    pub fn to_display_string(&self) -> (r: String)
        ensures
            r@ == "Failed to retrieve request id from request-local storage."@,
    {
        String::from_str("Failed to retrieve request id from request-local storage.")
    }
}

/// A character with the Unicode `White_Space` property.
pub open spec fn is_white_space(c: char) -> bool {
    let u = c as u32;
    (0x9 <= u && u <= 0xd) || u == 0x20 || u == 0x85 || u == 0xa0 || u == 0x1680 || (0x2000 <= u && u
        <= 0x200a) || u == 0x2028 || u == 0x2029 || u == 0x202f || u == 0x205f || u == 0x3000
}

/// Whether a character has the Unicode `White_Space` property.
pub fn white_space(c: char) -> (r: bool)
    ensures
        r == is_white_space(c),
{
    let u = c as u32;
    (0x9 <= u && u <= 0xd) || u == 0x20 || u == 0x85 || u == 0xa0 || u == 0x1680 || (0x2000 <= u && u
        <= 0x200a) || u == 0x2028 || u == 0x2029 || u == 0x202f || u == 0x205f || u == 0x3000
}

/// The position of the first character from the `i`-th on that is not white
/// space (the length when there is none).
pub open spec fn first_non_white(s: Seq<char>, i: int) -> int
    decreases s.len() - i,
{
    if i >= s.len() {
        s.len() as int
    } else if is_white_space(s[i]) {
        first_non_white(s, i + 1)
    } else {
        i
    }
}

/// The end of the text before `j` once trailing white space down to `lo` is
/// dropped.
pub open spec fn end_non_white(s: Seq<char>, lo: int, j: int) -> int
    decreases j - lo,
{
    if j <= lo {
        lo
    } else if is_white_space(s[j - 1]) {
        end_non_white(s, lo, j - 1)
    } else {
        j
    }
}

/// The text without its leading and trailing white space.
pub open spec fn trimmed(s: Seq<char>) -> Seq<char> {
    let a = first_non_white(s, 0);
    s.subrange(a, end_non_white(s, a, s.len() as int))
}

proof fn lemma_first_non_white_bounds(s: Seq<char>, i: int)
    requires
        0 <= i <= s.len(),
    ensures
        i <= first_non_white(s, i) <= s.len(),
    decreases s.len() - i,
{
    if i < s.len() && is_white_space(s[i]) {
        lemma_first_non_white_bounds(s, i + 1);
    }
}

proof fn lemma_end_non_white_bounds(s: Seq<char>, lo: int, j: int)
    requires
        lo <= j,
    ensures
        lo <= end_non_white(s, lo, j) <= j,
    decreases j - lo,
{
    if j > lo && is_white_space(s[j - 1]) {
        lemma_end_non_white_bounds(s, lo, j - 1);
    }
}

/// The text without its leading and trailing white space (Unicode
/// `White_Space`), as `str::trim` gives it.
pub fn trim(s: &str) -> (r: &str)
    ensures
        r@ == trimmed(s@),
{
    let n = s.unicode_len();
    let mut a: usize = 0;
    while a < n && white_space(s.get_char(a))
        invariant
            n == s@.len(),
            a <= n,
            first_non_white(s@, 0) == first_non_white(s@, a as int),
        decreases n - a,
    {
        a = a + 1;
    }
    let mut b: usize = n;
    proof {
        lemma_first_non_white_bounds(s@, a as int);
    }
    while b > a && white_space(s.get_char(b - 1))
        invariant
            n == s@.len(),
            a <= b <= n,
            a == first_non_white(s@, 0),
            end_non_white(s@, a as int, n as int) == end_non_white(s@, a as int, b as int),
        decreases b,
    {
        b = b - 1;
    }
    s.substring_char(a, b)
}

/// What `uuid::Uuid::parse_str` makes of a text: the UUID as a 128-bit
/// number when the text is one in any format the crate reads, `None` otherwise.
pub uninterp spec fn parsed_uuid(s: Seq<char>) -> Option<u128>;

/// `uuid::Uuid::parse_str`, with the parsed UUID as its 128-bit number and
/// any parse failure as `None`. The contract names the result and says
/// nothing more of it.
#[verifier::external_body]
fn parse_uuid(s: &str) -> (r: Option<u128>)
    ensures
        r == parsed_uuid(s@),
{
    match uuid::Uuid::parse_str(s) {
        Ok(id) => Some(id.as_u128()),
        Err(_) => None,
    }
}

/// The request id a caller's `x-request-id` header supplies: adopted only when
/// the header's text, trimmed, is a UUID; `None` asks for a fresh one. A UUID
/// keeps one id format across services and keeps caller text out of the logs.
pub fn adopted_request_id(header: Option<&str>) -> (r: Option<u128>)
    ensures
        r == match header {
            Some(h) => parsed_uuid(trimmed(h@)),
            None => None,
        },
{
    match header {
        Some(h) => parse_uuid(trim(h)),
        None => None,
    }
}

/// The request-id header name.
pub const X_REQUEST_ID: &'static str = "x-request-id";


proof fn lemma_first_non_white_spec(s: Seq<char>, i: int)
    requires
        0 <= i <= s.len(),
    ensures
        i <= first_non_white(s, i) <= s.len(),
        forall|k: int| i <= k < first_non_white(s, i) ==> is_white_space(#[trigger] s[k]),
        first_non_white(s, i) < s.len() ==> !is_white_space(s[first_non_white(s, i)]),
    decreases s.len() - i,
{
    if i < s.len() && is_white_space(s[i]) {
        lemma_first_non_white_spec(s, i + 1);
    }
}

proof fn lemma_end_non_white_spec(s: Seq<char>, lo: int, j: int)
    requires
        0 <= lo <= j <= s.len(),
    ensures
        lo <= end_non_white(s, lo, j) <= j,
        forall|k: int| end_non_white(s, lo, j) <= k < j ==> is_white_space(#[trigger] s[k]),
        end_non_white(s, lo, j) > lo ==> !is_white_space(s[end_non_white(s, lo, j) - 1]),
    decreases j - lo,
{
    if j > lo && is_white_space(s[j - 1]) {
        lemma_end_non_white_spec(s, lo, j - 1);
    }
}

/// Trimming keeps a contiguous middle part of the text: everything cut off
/// before and after it is white space, and what is kept neither starts nor
/// ends with white space. A text of white space alone trims to nothing.
pub proof fn lemma_trimmed_is_middle(s: Seq<char>)
    ensures
        exists|a: int, b: int|
            0 <= a <= b <= s.len() && trimmed(s) == s.subrange(a, b) && (forall|k: int|
                0 <= k < a ==> is_white_space(#[trigger] s[k])) && (forall|k: int|
                b <= k < s.len() ==> is_white_space(#[trigger] s[k])) && (a < b ==> !is_white_space(s[a])
                && !is_white_space(s[b - 1])),
        (forall|k: int| 0 <= k < s.len() ==> is_white_space(#[trigger] s[k])) ==> trimmed(s).len() == 0,
{
    lemma_first_non_white_spec(s, 0);
    let a = first_non_white(s, 0);
    lemma_end_non_white_spec(s, a, s.len() as int);
    let b = end_non_white(s, a, s.len() as int);
    assert(trimmed(s) == s.subrange(a, b));
    if a < b {
        assert(!is_white_space(s[a]));
    }
}

} // verus!

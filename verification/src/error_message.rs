//! The client-facing error entry (`errors[]` element) and its locator.

use crate::json::{WireKey, WireValue};
use vstd::prelude::*;

verus! {

/// An optional string, seen as its characters.
pub open spec fn opt_str(o: Option<String>) -> Option<Seq<char>> {
    match o {
        Some(s) => Some(s@),
        None => None,
    }
}

/// Copy an optional string.
pub fn copy_opt_str(o: &Option<String>) -> (r: Option<String>)
    ensures
        opt_str(r) == opt_str(*o),
{
    match o {
        Some(s) => Some(s.clone()),
        None => None,
    }
}

/// Where an error originated, mirroring JSON:API's `error.source`: a JSON
/// Pointer into the request body, a query `parameter`, or a request `header`.
#[derive(Debug, Clone, Default, PartialEq)]
pub struct ErrorSource {
    /// JSON Pointer (RFC 6901) to the offending value, e.g. `/data/attributes/email`.
    pub pointer: Option<String>,
    /// Name of the query parameter that caused the error.
    pub parameter: Option<String>,
    /// Name of the request header that caused the error.
    pub header: Option<String>,
}

/// The mathematical content of an [`ErrorSource`].
pub struct ErrorSourceView {
    pub pointer: Option<Seq<char>>,
    pub parameter: Option<Seq<char>>,
    pub header: Option<Seq<char>>,
}

impl View for ErrorSource {
    type V = ErrorSourceView;

    open spec fn view(&self) -> ErrorSourceView {
        ErrorSourceView {
            pointer: opt_str(self.pointer),
            parameter: opt_str(self.parameter),
            header: opt_str(self.header),
        }
    }
}

impl ErrorSourceView {
    /// No locator field is set.
    pub open spec fn is_empty(self) -> bool {
        self.pointer is None && self.parameter is None && self.header is None
    }

    /// The locator with nothing set.
    pub open spec fn empty() -> Self {
        ErrorSourceView { pointer: None, parameter: None, header: None }
    }
}

/// An optional locator that is kept only when it carries something.
pub open spec fn nonempty_source(s: Option<ErrorSourceView>) -> Option<ErrorSourceView> {
    match s {
        Some(v) => if v.is_empty() { None } else { Some(v) },
        None => None,
    }
}

/// An optional locator, seen through its view.
pub open spec fn opt_source(s: Option<ErrorSource>) -> Option<ErrorSourceView> {
    match s {
        Some(v) => Some(v@),
        None => None,
    }
}

impl ErrorSource {
    /// The locator with no field set.
    pub fn new() -> (r: Self)
        ensures
            r@ == ErrorSourceView::empty(),
    {
        ErrorSource { pointer: None, parameter: None, header: None }
    }

    /// Point at the offending value with a JSON Pointer.
    pub fn with_pointer(self, pointer: String) -> (r: Self)
        ensures
            r@ == (ErrorSourceView { pointer: Some(pointer@), ..self@ }),
    {
        ErrorSource { pointer: Some(pointer), ..self }
    }

    /// Point at the offending query parameter by name.
    pub fn with_parameter(self, parameter: String) -> (r: Self)
        ensures
            r@ == (ErrorSourceView { parameter: Some(parameter@), ..self@ }),
    {
        ErrorSource { parameter: Some(parameter), ..self }
    }

    /// Point at the offending request header by name.
    pub fn with_header(self, header: String) -> (r: Self)
        ensures
            r@ == (ErrorSourceView { header: Some(header@), ..self@ }),
    {
        ErrorSource { header: Some(header), ..self }
    }

    /// `true` when no locator field is set — such a locator is not serialized.
    pub fn is_empty(&self) -> (r: bool)
        ensures
            r == self@.is_empty(),
    {
        self.pointer.is_none() && self.parameter.is_none() && self.header.is_none()
    }

    /// A field-by-field copy.
    pub fn copied(&self) -> (r: Self)
        ensures
            r@ == self@,
    {
        ErrorSource {
            pointer: copy_opt_str(&self.pointer),
            parameter: copy_opt_str(&self.parameter),
            header: copy_opt_str(&self.header),
        }
    }

    /// The locator's fields as they go on the wire: only the set ones, in
    /// declaration order.
    pub fn to_wire_fields(&self) -> (r: Vec<(WireKey, WireValue)>)
        ensures
            wire_text_fields(r@) == source_wire_spec(self@),
    {
        let mut out: Vec<(WireKey, WireValue)> = Vec::new();
        if let Some(p) = &self.pointer {
            out.push((WireKey::Pointer, WireValue::Text(p.clone())));
        }
        if let Some(p) = &self.parameter {
            out.push((WireKey::Parameter, WireValue::Text(p.clone())));
        }
        if let Some(h) = &self.header {
            out.push((WireKey::Header, WireValue::Text(h.clone())));
        }
        out
    }
}

/// A wire field that only holds text, seen as key and characters; anything
/// else is seen as `None` in the value slot.
pub open spec fn wire_text_fields(fields: Seq<(WireKey, WireValue)>) -> Seq<(WireKey, Option<Seq<char>>)> {
    fields.map_values(|f: (WireKey, WireValue)| (f.0, match f.1 {
        WireValue::Text(s) => Some(s@),
        _ => None,
    }))
}

/// One optional text field on the wire: present only when set.
pub open spec fn opt_field(key: WireKey, value: Option<Seq<char>>) -> Seq<(WireKey, Option<Seq<char>>)> {
    match value {
        Some(v) => seq![(key, Some(v))],
        None => seq![],
    }
}

/// The wire fields of a locator.
pub open spec fn source_wire_spec(s: ErrorSourceView) -> Seq<(WireKey, Option<Seq<char>>)> {
    opt_field(WireKey::Pointer, s.pointer) + opt_field(WireKey::Parameter, s.parameter)
        + opt_field(WireKey::Header, s.header)
}


/// A client-facing error entry: the element of `errors[]`.
#[derive(Debug, Clone, Default, PartialEq)]
pub struct ErrorMessage {
    /// Stable machine-readable value. Clients match on this.
    pub code: String,
    /// Human-readable text.
    pub message: Option<String>,
    /// RFC 9457 `type`: a URI identifying the error kind.
    pub type_uri: Option<String>,
    /// RFC 9457 `instance`: an id for this occurrence (often a request id).
    pub instance: Option<String>,
    /// Where the error originated (JSON:API `source`).
    pub source: Option<ErrorSource>,
    /// Structured service-specific detail.
    pub meta: Option<serde_json::Value>,
}

/// The mathematical content of an [`ErrorMessage`].
pub struct ErrorMessageView {
    pub code: Seq<char>,
    pub message: Option<Seq<char>>,
    pub type_uri: Option<Seq<char>>,
    pub instance: Option<Seq<char>>,
    pub source: Option<ErrorSourceView>,
    pub meta: Option<serde_json::Value>,
}

impl View for ErrorMessage {
    type V = ErrorMessageView;

    open spec fn view(&self) -> ErrorMessageView {
        ErrorMessageView {
            code: self.code@,
            message: opt_str(self.message),
            type_uri: opt_str(self.type_uri),
            instance: opt_str(self.instance),
            source: opt_source(self.source),
            meta: self.meta,
        }
    }
}

/// A sequence of entries, seen through their views.
pub open spec fn messages_view(v: Seq<ErrorMessage>) -> Seq<ErrorMessageView> {
    v.map_values(|m: ErrorMessage| m@)
}

/// The prefix every rendered error starts with.
pub open spec fn display_prefix() -> Seq<char> {
    "leto error: "@
}

/// The separator between a rendered error's code and its message.
pub open spec fn display_message_sep() -> Seq<char> {
    ", message: "@
}

/// The `Display` rendering of an entry: `leto error: <code>`, followed by
/// `, message: <message>` when the message is present and not empty.
pub open spec fn message_display(m: ErrorMessageView) -> Seq<char> {
    match m.message {
        Some(text) => if text.len() > 0 {
            display_prefix() + m.code + display_message_sep() + text
        } else {
            display_prefix() + m.code
        },
        None => display_prefix() + m.code,
    }
}

/// A wire value seen one level deep: text, an object of text fields, or raw JSON.
pub enum WireLeaf {
    Text(Seq<char>),
    Object(Seq<(WireKey, Option<Seq<char>>)>),
    Json(serde_json::Value),
}

/// A wire value, seen one level deep.
pub open spec fn wire_leaf(v: WireValue) -> WireLeaf {
    match v {
        WireValue::Text(s) => WireLeaf::Text(s@),
        WireValue::Object(fs) => WireLeaf::Object(wire_text_fields(fs@)),
        WireValue::Json(j) => WireLeaf::Json(j),
    }
}

/// Wire fields, seen one level deep.
pub open spec fn wire_fields_view(fields: Seq<(WireKey, WireValue)>) -> Seq<(WireKey, WireLeaf)> {
    fields.map_values(|f: (WireKey, WireValue)| (f.0, wire_leaf(f.1)))
}

/// One optional text field of an entry on the wire: present only when set.
pub open spec fn opt_text(key: WireKey, value: Option<Seq<char>>) -> Seq<(WireKey, WireLeaf)> {
    match value {
        Some(v) => seq![(key, WireLeaf::Text(v))],
        None => seq![],
    }
}

/// The JSON object an entry serializes to: `code` always, every other field
/// only when set, and `source` only when it locates something.
pub open spec fn message_wire_spec(m: ErrorMessageView) -> Seq<(WireKey, WireLeaf)> {
    seq![(WireKey::Code, WireLeaf::Text(m.code))]
        + opt_text(WireKey::Message, m.message)
        + opt_text(WireKey::Type, m.type_uri)
        + opt_text(WireKey::Instance, m.instance)
        + match nonempty_source(m.source) {
            Some(s) => seq![(WireKey::Source, WireLeaf::Object(source_wire_spec(s)))],
            None => seq![],
        }
        + match m.meta {
            Some(j) => seq![(WireKey::Meta, WireLeaf::Json(j))],
            None => seq![],
        }
}

impl ErrorMessage {
    /// A copy of this entry.
    pub fn to_error_message(&self) -> (r: ErrorMessage)
        ensures
            r@ == self@,
    {
        ErrorMessage {
            code: self.code.clone(),
            message: copy_opt_str(&self.message),
            type_uri: copy_opt_str(&self.type_uri),
            instance: copy_opt_str(&self.instance),
            source: match &self.source {
                Some(s) => Some(s.copied()),
                None => None,
            },
            meta: self.meta.clone(),
        }
    }

    /// The `Display` rendering: `leto error: <code>[, message: <message>]`.
    pub fn to_display_string(&self) -> (r: String)
        ensures
            r@ == message_display(self@),
    {
        let mut out = String::from_str("leto error: ");
        out.append(self.code.as_str());
        if let Some(message) = &self.message {
            if message.as_str().unicode_len() > 0 {
                out.append(", message: ");
                out.append(message.as_str());
            }
        }
        out
    }

    /// The fields of the JSON object this entry serializes to, in order.
    pub fn to_wire_fields(&self) -> (r: Vec<(WireKey, WireValue)>)
        ensures
            wire_fields_view(r@) == message_wire_spec(self@),
    {
        let mut out: Vec<(WireKey, WireValue)> = Vec::new();
        out.push((WireKey::Code, WireValue::Text(self.code.clone())));
        if let Some(m) = &self.message {
            out.push((WireKey::Message, WireValue::Text(m.clone())));
        }
        if let Some(t) = &self.type_uri {
            out.push((WireKey::Type, WireValue::Text(t.clone())));
        }
        if let Some(i) = &self.instance {
            out.push((WireKey::Instance, WireValue::Text(i.clone())));
        }
        if let Some(s) = &self.source {
            if !s.is_empty() {
                out.push((WireKey::Source, WireValue::Object(s.to_wire_fields())));
            }
        }
        if let Some(j) = &self.meta {
            out.push((WireKey::Meta, WireValue::Json(j.clone())));
        }
        out
    }
}


/// An entry iterates as itself, once: one entry is a one-element list of
/// entries.
impl IntoIterator for ErrorMessage {
    type Item = ErrorMessage;
    type IntoIter = std::vec::IntoIter<ErrorMessage>;

    fn into_iter(self) -> (r: std::vec::IntoIter<ErrorMessage>)
        ensures
            vstd::std_specs::iter::IteratorSpec::remaining(&r) == seq![self],
    {
        let mut v: Vec<ErrorMessage> = Vec::new();
        v.push(self);
        proof {
            broadcast use vstd::std_specs::vec::axiom_spec_into_iter;
        }
        v.into_iter()
    }
}


/// A locator's wire fields are exactly its set fields: a field is on the wire
/// with a value exactly when the locator holds that value, every wire field
/// carries text, and a locator that holds anything has a non-empty wire object.
pub proof fn lemma_source_wire_fields(s: ErrorSourceView)
    ensures
        forall|p: Seq<char>| #[trigger] source_wire_spec(s).contains((WireKey::Pointer, Some(p))) <==> s.pointer == Some(p),
        forall|p: Seq<char>|
            #[trigger] source_wire_spec(s).contains((WireKey::Parameter, Some(p))) <==> s.parameter == Some(p),
        forall|p: Seq<char>| #[trigger] source_wire_spec(s).contains((WireKey::Header, Some(p))) <==> s.header == Some(p),
        forall|k: int| 0 <= k < source_wire_spec(s).len() ==> (#[trigger] source_wire_spec(s)[k]).1 is Some,
        source_wire_spec(s).len() > 0 <==> (s.pointer is Some || s.parameter is Some || s.header is Some),
{
    let a = opt_field(WireKey::Pointer, s.pointer);
    let b = opt_field(WireKey::Parameter, s.parameter);
    let c = opt_field(WireKey::Header, s.header);
    let w = source_wire_spec(s);
    assert(w == a + b + c);
    assert forall|k: int| 0 <= k < w.len() implies (#[trigger] w[k]) == (if k < a.len() {
        a[k]
    } else if k < a.len() + b.len() {
        b[k - a.len()]
    } else {
        c[k - a.len() - b.len()]
    }) by {}
    assert forall|p: Seq<char>| #[trigger] w.contains((WireKey::Pointer, Some(p))) <==> s.pointer == Some(p) by {
        if s.pointer == Some(p) {
            assert(w[0] == (WireKey::Pointer, Some(p)));
        }
    }
    assert forall|p: Seq<char>| #[trigger] w.contains((WireKey::Parameter, Some(p))) <==> s.parameter == Some(p) by {
        if s.parameter == Some(p) {
            assert(w[a.len() as int] == (WireKey::Parameter, Some(p)));
        }
    }
    assert forall|p: Seq<char>| #[trigger] w.contains((WireKey::Header, Some(p))) <==> s.header == Some(p) by {
        if s.header == Some(p) {
            assert(w[(a.len() + b.len()) as int] == (WireKey::Header, Some(p)));
        }
    }
}


proof fn lemma_contains_concat<A>(a: Seq<A>, b: Seq<A>)
    ensures
        forall|x: A| #[trigger] (a + b).contains(x) <==> a.contains(x) || b.contains(x),
{
    assert forall|x: A| #[trigger] (a + b).contains(x) <==> a.contains(x) || b.contains(x) by {
        if a.contains(x) {
            let i = choose|i: int| 0 <= i < a.len() && a[i] == x;
            assert((a + b)[i] == x);
        }
        if b.contains(x) {
            let i = choose|i: int| 0 <= i < b.len() && b[i] == x;
            assert((a + b)[a.len() + i] == x);
        }
        if (a + b).contains(x) {
            let i = choose|i: int| 0 <= i < (a + b).len() && (a + b)[i] == x;
            if i < a.len() {
                assert(a[i] == x);
            } else {
                assert(b[i - a.len()] == x);
            }
        }
    }
}

proof fn lemma_contains_one<A>(y: A)
    ensures
        forall|x: A| #[trigger] seq![y].contains(x) <==> x == y,
        forall|x: A| !(#[trigger] Seq::<A>::empty().contains(x)),
{
    assert forall|x: A| #[trigger] seq![y].contains(x) <==> x == y by {
        if x == y {
            assert(seq![y][0] == x);
        }
    }
}

/// An entry's wire fields are exactly its set fields: `code` first and
/// always; `message`, `type`, `instance` and `meta` with a value exactly when
/// the entry holds that value; `source` exactly when the locator holds
/// anything, as the locator's own wire fields.
pub proof fn lemma_message_wire_fields(m: ErrorMessageView)
    ensures
        message_wire_spec(m).len() > 0,
        message_wire_spec(m)[0] == (WireKey::Code, WireLeaf::Text(m.code)),
        forall|t: Seq<char>| #[trigger] message_wire_spec(m).contains((WireKey::Message, WireLeaf::Text(t))) <==> m.message == Some(t),
        forall|t: Seq<char>| #[trigger] message_wire_spec(m).contains((WireKey::Type, WireLeaf::Text(t))) <==> m.type_uri == Some(t),
        forall|t: Seq<char>| #[trigger] message_wire_spec(m).contains((WireKey::Instance, WireLeaf::Text(t))) <==> m.instance == Some(t),
        forall|j: serde_json::Value| #[trigger] message_wire_spec(m).contains((WireKey::Meta, WireLeaf::Json(j))) <==> m.meta == Some(j),
        forall|o: Seq<(WireKey, Option<Seq<char>>)>|
            #[trigger] message_wire_spec(m).contains((WireKey::Source, WireLeaf::Object(o))) <==> (m.source matches Some(src)
                && (src.pointer is Some || src.parameter is Some || src.header is Some) && o == source_wire_spec(src)),
{
    let p0 = seq![(WireKey::Code, WireLeaf::Text(m.code))];
    let p1 = opt_text(WireKey::Message, m.message);
    let p2 = opt_text(WireKey::Type, m.type_uri);
    let p3 = opt_text(WireKey::Instance, m.instance);
    let p4 = match nonempty_source(m.source) {
        Some(s) => seq![(WireKey::Source, WireLeaf::Object(source_wire_spec(s)))],
        None => seq![],
    };
    let p5 = match m.meta {
        Some(j) => seq![(WireKey::Meta, WireLeaf::Json(j))],
        None => seq![],
    };
    let w = message_wire_spec(m);
    assert(w == p0 + p1 + p2 + p3 + p4 + p5);
    assert(w[0] == p0[0]);
    lemma_contains_concat(p0 + p1 + p2 + p3 + p4, p5);
    lemma_contains_concat(p0 + p1 + p2 + p3, p4);
    lemma_contains_concat(p0 + p1 + p2, p3);
    lemma_contains_concat(p0 + p1, p2);
    lemma_contains_concat(p0, p1);
    lemma_contains_one((WireKey::Code, WireLeaf::Text(m.code)));
    match m.message {
        Some(v) => lemma_contains_one((WireKey::Message, WireLeaf::Text(v))),
        None => lemma_contains_one((WireKey::Message, WireLeaf::Text(Seq::empty()))),
    }
    match m.type_uri {
        Some(v) => lemma_contains_one((WireKey::Type, WireLeaf::Text(v))),
        None => {},
    }
    match m.instance {
        Some(v) => lemma_contains_one((WireKey::Instance, WireLeaf::Text(v))),
        None => {},
    }
    match nonempty_source(m.source) {
        Some(s) => lemma_contains_one((WireKey::Source, WireLeaf::Object(source_wire_spec(s)))),
        None => {},
    }
    match m.meta {
        Some(j) => lemma_contains_one((WireKey::Meta, WireLeaf::Json(j))),
        None => {},
    }
}

} // verus!

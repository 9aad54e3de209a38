//! The opaque JSON value that `meta` carries, and the wire description of an
//! error entry that the serializer turns into a JSON object.

use vstd::prelude::*;

verus! {

/// `serde_json::Value`, carried through the library untouched: the `meta` of an
/// error is opaque to the envelope logic.
#[verifier::external_type_specification]
#[verifier::external_body]
pub struct ExJsonValue(serde_json::Value);

/// `serde_json::Value::clone` (a derived `Clone`): the copy is the same JSON
/// value as the one copied.
pub assume_specification[ <serde_json::Value as Clone>::clone ](
    v: &serde_json::Value,
) -> (r: serde_json::Value)
    ensures
        r == *v,
;

/// A key of the JSON object an error entry serializes to.
#[derive(Clone, Copy, Debug, PartialEq, Eq, Structural)]
pub enum WireKey {
    Code,
    Message,
    Type,
    Instance,
    Source,
    Meta,
    Pointer,
    Parameter,
    Header,
}

/// The JSON name of each key.
pub open spec fn wire_key_name(key: WireKey) -> Seq<char> {
    match key {
        WireKey::Code => "code"@,
        WireKey::Message => "message"@,
        WireKey::Type => "type"@,
        WireKey::Instance => "instance"@,
        WireKey::Source => "source"@,
        WireKey::Meta => "meta"@,
        WireKey::Pointer => "pointer"@,
        WireKey::Parameter => "parameter"@,
        WireKey::Header => "header"@,
    }
}

impl WireKey {
    /// The JSON name of this key.
    pub fn as_str(&self) -> (r: &'static str)
        ensures
            r@ == wire_key_name(*self),
    {
        match self {
            WireKey::Code => "code",
            WireKey::Message => "message",
            WireKey::Type => "type",
            WireKey::Instance => "instance",
            WireKey::Source => "source",
            WireKey::Meta => "meta",
            WireKey::Pointer => "pointer",
            WireKey::Parameter => "parameter",
            WireKey::Header => "header",
        }
    }
}

/// A value in the JSON object an error entry serializes to.
pub enum WireValue {
    Text(String),
    Object(Vec<(WireKey, WireValue)>),
    Json(serde_json::Value),
}

} // verus!

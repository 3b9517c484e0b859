use vstd::prelude::*;

verus! {

/// The crate's own model of a JSON document, as far as the registry's
/// responses use JSON: null, booleans, strings, arrays and objects.
///
/// A number's payload is not represented: the gem-metadata records this
/// client reads never contain numbers, so decoding treats any number as a
/// type mismatch, and only the fact that a value *is* a number matters.
pub enum JsonValue {
    Null,
    Bool(bool),
    Number,
    Str(String),
    Arr(Vec<JsonValue>),
    Obj(Vec<(String, JsonValue)>),
}

#[verifier::external_type_specification]
#[verifier::external_body]
pub struct ExSerdeValue(serde_json::Value);

/// The JSON document denoted by a string, or `None` where the string is not
/// well-formed JSON: what `parse_json` returns.
pub uninterp spec fn json_of(s: Seq<char>) -> Option<JsonValue>;

/// Turns serde_json's document type into the crate's own JSON model, one
/// variant at a time; a number's payload is dropped (see `JsonValue`).
#[verifier::external_body]
fn from_value(v: serde_json::Value) -> JsonValue {
    match v {
        serde_json::Value::Null => JsonValue::Null,
        serde_json::Value::Bool(b) => JsonValue::Bool(b),
        serde_json::Value::Number(_) => JsonValue::Number,
        serde_json::Value::String(s) => JsonValue::Str(s),
        serde_json::Value::Array(a) => JsonValue::Arr(a.into_iter().map(from_value).collect()),
        serde_json::Value::Object(m) => JsonValue::Obj(
            m.into_iter().map(|(k, x)| (k, from_value(x))).collect(),
        ),
    }
}

/// Relies on serde_json::from_str: whether a string is well-formed JSON and
/// which document it denotes depend on the characters alone (serde_json's
/// object map is ordered deterministically and keeps one value per key).
#[verifier::external_body]
pub(crate) fn parse_json(s: &str) -> (r: Option<JsonValue>)
    ensures
        r == json_of(s@),
{
    match serde_json::from_str::<serde_json::Value>(s) {
        Ok(v) => Some(from_value(v)),
        Err(_) => None,
    }
}

} // verus!

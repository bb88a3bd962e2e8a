use crate::json::{Json, JsonView};
use vstd::prelude::*;

verus! {

/// `serde_json::Value`, a JSON value as `serde_json` holds it. Nothing of
/// its inside is known here; `value_view` names what it holds.
#[verifier::external_type_specification]
#[verifier::external_body]
pub struct ExValue(serde_json::Value);

/// What `serde_json::from_str` makes of `text`, read as one JSON value: the
/// document, or the message of the error with which it refuses the text.
pub uninterp spec fn json_parse(text: Seq<char>) -> Result<JsonView, Seq<char>>;

/// The document that a `serde_json::Value` holds: its variants one for one,
/// a number as the text that `serde_json` displays for it, the members of an
/// object in the order in which its map hands them out.
pub uninterp spec fn value_view(value: serde_json::Value) -> JsonView;

/// The model of the outcome of decoding.
pub open spec fn decoded_view(decoded: Result<Json, String>) -> Result<JsonView, Seq<char>> {
    match decoded {
        Ok(document) => Ok(document@),
        Err(detail) => Err(detail@),
    }
}

/// Calls `serde_json::from_str` for a `serde_json::Value`. The value that
/// comes back holds the document that `json_parse` names for the text; an
/// error comes back as its message, the one that `json_parse` names.
#[verifier::external_body]
fn parse_value(text: &str) -> (parsed: Result<serde_json::Value, String>)
    ensures
        match parsed {
            Ok(value) => json_parse(text@) == Ok::<JsonView, Seq<char>>(value_view(value)),
            Err(detail) => json_parse(text@) == Err::<JsonView, Seq<char>>(detail@),
        },
{
    match serde_json::from_str::<serde_json::Value>(text) {
        Ok(value) => Ok(value),
        Err(error) => Err(error.to_string()),
    }
}

/// Copies a `serde_json::Value` into a `Json` by its variants, one arm for
/// each: a number through the `Display` of `serde_json::Number`, the members
/// of an object as `serde_json::Map::iter` hands them out. The copy holds the
/// document that `value_view` names for the value.
#[verifier::external_body]
fn json_of_value(value: &serde_json::Value) -> (document: Json)
    ensures
        document@ == value_view(*value),
{
    match value {
        serde_json::Value::Null => Json::Null,
        serde_json::Value::Bool(b) => Json::Bool(*b),
        serde_json::Value::Number(n) => Json::Number(n.to_string()),
        serde_json::Value::String(s) => Json::String(s.clone()),
        serde_json::Value::Array(items) => Json::Array(items.iter().map(json_of_value).collect()),
        serde_json::Value::Object(map) => Json::Object(
            map.iter().map(|(k, v)| (k.clone(), json_of_value(v))).collect(),
        ),
    }
}

/// Decodes `text` as one JSON document.
pub fn decode(text: &str) -> (decoded: Result<Json, String>)
    ensures
        decoded_view(decoded) == json_parse(text@),
{
    match parse_value(text) {
        Ok(value) => Ok(json_of_value(&value)),
        Err(detail) => Err(detail),
    }
}

} // verus!

//! The trusted boundary to serde_json: parsing response text into the
//! crate's own tree. Everything past `parse_json` is verified against the
//! tree alone.

use vstd::prelude::*;
use crate::json::Json;

verus! {

/// Declares serde_json::Value, the parser's document type, so that it can
/// cross the trusted boundary; its contents are reached only through
/// `value_model`.
#[verifier::external_type_specification]
#[verifier::external_body]
pub struct ExValue(serde_json::Value);

/// The tree a `serde_json::Value` holds, read constructor by constructor:
/// objects and arrays keep their element order, numbers their canonical
/// decimal text.
pub uninterp spec fn value_model(v: serde_json::Value) -> Json;

/// What `serde_json::from_str::<serde_json::Value>` returns on a given text:
/// the document's tree, or nothing when the text is not one valid JSON
/// document. The result depends on the text alone.
pub uninterp spec fn json_text(s: Seq<char>) -> Option<Json>;

/// Relies on serde_json::from_str::<serde_json::Value>: parses one complete
/// JSON document, deterministically in the input text.
#[verifier::external_body]
fn parse_value(s: &str) -> (r: Option<serde_json::Value>)
    ensures
        r matches Some(v) ==> json_text(s@) == Some(value_model(v)),
        r is None ==> json_text(s@) is None,
{
    serde_json::from_str(s).ok()
}

/// Relies on the variant set of serde_json::Value: each arm moves one
/// variant's contents into the corresponding constructor of the crate's own
/// tree; a number is rendered through serde_json::Number's Display, its
/// canonical decimal text.
#[verifier::external_body]
fn value_to_json(v: &serde_json::Value) -> (r: Json)
    ensures
        r == value_model(*v),
{
    match v {
        serde_json::Value::Null => Json::Null,
        serde_json::Value::Bool(b) => Json::Bool(*b),
        serde_json::Value::Number(n) => Json::Num(format!("{}", n)),
        serde_json::Value::String(s) => Json::Str(s.clone()),
        serde_json::Value::Array(a) => Json::Arr(a.iter().map(value_to_json).collect()),
        serde_json::Value::Object(m) => Json::Obj(
            m.iter().map(|(k, inner)| (k.clone(), value_to_json(inner))).collect(),
        ),
    }
}

/// Parses one JSON document into the crate's own tree; nothing when the text
/// is not valid JSON.
pub fn parse_json(s: &str) -> (r: Option<Json>)
    ensures
        r == json_text(s@),
{
    match parse_value(s) {
        Some(v) => Some(value_to_json(&v)),
        None => None,
    }
}

} // verus!

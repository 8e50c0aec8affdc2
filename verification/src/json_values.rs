//! Classification of incoming JSON parameter arrays. Parsing is done by
//! serde_json; the gateway's own logic only ever reads the JSON type of
//! each element, so that is all that crosses the boundary.

use vstd::prelude::*;

verus! {

/// The JSON type of one parameter.
#[derive(Debug, Clone, Copy, PartialEq, Eq, Structural)]
pub enum JsonKind {
    Null,
    Boolean,
    Number,
    Text,
    Array,
    Object,
}

/// The JSON types of the elements of `s` parsed as a JSON array, or `None`
/// where `s` is not one. A function of the text alone.
pub uninterp spec fn json_array_kinds(s: Seq<char>) -> Option<Seq<JsonKind>>;

/// Relies on serde_json::from_str::<Vec<Value>>: parses the text as a JSON
/// array or fails; each element is classified by its `Value` variant.
#[verifier::external_body]
pub(crate) fn parse_json_array_kinds(s: &str) -> (r: Option<Vec<JsonKind>>)
    ensures
        match r {
            Some(v) => json_array_kinds(s@) == Some(v@),
            None => json_array_kinds(s@) is None,
        },
{
    let vals: Vec<serde_json::Value> = match serde_json::from_str(s) {
        Ok(v) => v,
        Err(_) => return None,
    };
    Some(vals.iter().map(|v| match v {
        serde_json::Value::Null => JsonKind::Null,
        serde_json::Value::Bool(_) => JsonKind::Boolean,
        serde_json::Value::Number(_) => JsonKind::Number,
        serde_json::Value::String(_) => JsonKind::Text,
        serde_json::Value::Array(_) => JsonKind::Array,
        serde_json::Value::Object(_) => JsonKind::Object,
    }).collect())
}

} // verus!

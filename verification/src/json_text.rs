//! JSON values read from text by the JSON library.

use vstd::prelude::*;
use crate::facet::DeepValue;
use crate::float::F64;
use crate::json::Json;
use crate::json::JsonNumber::{Float, NegInt, PosInt};
use serde_json::Value;

verus! {

/// The JSON library's value type, carried opaquely.
#[verifier::external_type_specification]
#[verifier::external_body]
pub struct ExJsonValue(Value);

/// The deep value of the JSON value that a text denotes, as the JSON
/// library reads it, or `None` where the library rejects the text.
pub uninterp spec fn json_text_model(text: Seq<char>) -> Option<DeepValue>;

/// The library's form of a value the JSON library parsed, variant for
/// variant: integers that fit `u64` or `i64` stay integers, other numbers
/// keep the bits of their double, objects keep the library's entry order.
#[verifier::external_body]
fn json_of_value(v: Value) -> Json {
    match v {
        Value::Null => Json::Null,
        Value::Bool(b) => Json::Bool(b),
        Value::Number(n) => Json::Number(match (n.as_u64(), n.as_i64()) {
            (Some(u), _) => PosInt(u),
            (_, Some(i)) => NegInt(i),
            _ => Float(F64 { bits: n.as_f64().map_or(0, |x| x.to_bits()) }),
        }),
        Value::String(s) => Json::Text(s),
        Value::Array(a) => Json::Array(a.into_iter().map(json_of_value).collect()),
        Value::Object(m) => Json::Object(m.into_iter().map(|(k, x)| (k, json_of_value(x))).collect()),
    }
}

/// `serde_json::from_str` into a `serde_json::Value`: the value the text
/// denotes, or `None` where the library rejects the text. The contract
/// names the result by `json_text_model` and claims nothing more of it.
#[verifier::external_body]
pub(crate) fn parse_json_text(text: &str) -> (r: Option<Json>)
    ensures
        r is None <==> json_text_model(text@) is None,
        r matches Some(j) ==> json_text_model(text@) == Some(Json::deep_of(j)),
{
    match serde_json::from_str::<Value>(text) {
        Ok(v) => Some(json_of_value(v)),
        Err(_) => None,
    }
}

} // verus!

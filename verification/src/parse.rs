//! The trusted boundary around `serde_json`: one line of protocol text is
//! decoded by `serde_json` and translated, variant for variant, into this
//! crate's JSON model. Everything downstream of `parse_json_line` is verified.

use vstd::prelude::*;

use crate::json::{JVal, Json};
use serde_json::Value;

verus! {

#[verifier::external_type_specification]
#[verifier::external_body]
pub struct ExJsonValue(serde_json::Value);

/// What `serde_json` parses a piece of text to, expressed in this crate's
/// JSON model; `None` where the text is not valid JSON. The result depends on
/// the text alone.
pub uninterp spec fn parsed_json(s: Seq<char>) -> Option<JVal>;

/// Relies on serde_json::Value's accessors (`as_i64`, `as_u64`) and
/// `Number::to_string`: translates a parsed value into this crate's JSON
/// model, one arm per variant. A number that fits neither `i64` nor `u64`
/// keeps its decimal rendering verbatim.
#[verifier::external_body]
fn json_of_value(v: &serde_json::Value) -> Json {
    match v {
        Value::Null => Json::Null,
        Value::Bool(b) => Json::Bool(*b),
        Value::Number(n) => match (n.as_i64(), n.as_u64()) {
            (Some(i), _) => Json::Int(i),
            (None, Some(u)) => Json::UInt(u),
            (None, None) => Json::NumText(n.to_string()),
        },
        Value::String(s) => Json::Str(s.clone()),
        Value::Array(a) => Json::Arr(a.iter().map(json_of_value).collect()),
        Value::Object(m) => Json::Obj(
            m.iter().map(|(k, x)| (k.clone(), json_of_value(x))).collect(),
        ),
    }
}

/// Relies on serde_json::from_str: decodes one line of JSON text, `None` on
/// any syntax error.
#[verifier::external_body]
pub fn parse_json_line(s: &str) -> (r: Option<Json>)
    ensures
        match r {
            Some(j) => parsed_json(s@) == Some(j.deep_view()),
            None => parsed_json(s@) is None,
        },
{
    serde_json::from_str::<serde_json::Value>(s).ok().map(|v| json_of_value(&v))
}

} // verus!

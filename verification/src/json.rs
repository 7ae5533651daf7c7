//! The crate's single trust boundary towards `serde_json`: reading a
//! top-level string field out of a JSON body, and reading a numeric scalar
//! as whole seconds.

use vstd::prelude::*;

verus! {

#[verifier::external_type_specification]
#[verifier::external_body]
pub struct ExValue(serde_json::Value);

/// The value of the top-level string field named `field` when `body` parses
/// as JSON and carries one, and `None` otherwise.  JSON parsing is a fixed
/// function of the input text, far too long to spell out here; this name
/// stands for its outcome.
pub uninterp spec fn json_string_field_of(body: Seq<char>, field: Seq<char>) -> Option<Seq<char>>;

/// Relies on `serde_json::from_str::<Value>`, `Value::get` and
/// `Value::as_str`: returns the top-level string field named `field` when
/// the body parses as a JSON object that carries one, and `None` when the
/// body does not parse, is not an object, lacks the field, or holds a
/// non-string value under it.  The outcome depends on the two arguments
/// alone.
#[verifier::external_body]
pub(crate) fn json_string_field(body: &str, field: &str) -> (r: Option<String>)
    ensures
        match r {
            Some(m) => json_string_field_of(body@, field@) == Some(m@),
            None => json_string_field_of(body@, field@) is None,
        },
{
    match serde_json::from_str::<serde_json::Value>(body) {
        Ok(v) => match v.get(field).and_then(|e| e.as_str()) {
            Some(m) => Some(m.to_owned()),
            None => None,
        },
        Err(_) => None,
    }
}

/// The whole-second reading of a JSON scalar: a JSON integer is itself, a
/// JSON floating-point number is its value truncated toward zero
/// (saturating at the extremes of `i64`), and any other JSON shape reads
/// as `None`.  The outcome is a fixed function of the value alone.
pub uninterp spec fn whole_seconds_of(v: serde_json::Value) -> Option<i64>;

/// Relies on `serde_json::Value::as_i64` and `Value::as_f64`: reads a JSON
/// number as whole seconds, exactly as `whole_seconds_of` names it.
#[verifier::external_body]
pub(crate) fn scalar_whole_seconds(v: &serde_json::Value) -> (r: Option<i64>)
    ensures
        r == whole_seconds_of(*v),
{
    match v.as_i64() {
        Some(n) => Some(n),
        None => v.as_f64().map(|x| x as i64),
    }
}

} // verus!

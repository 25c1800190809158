//! Trusted boundary to the `serde_json` crate.
//!
//! The transport layer receives every response body as text and reads it
//! through these wrappers. A `serde_json::Value` is opaque to the verifier:
//! nothing is assumed about what a parsed value holds, so every decision the
//! library makes about one is taken by verified code that inspects it through
//! the wrappers below and works on the plain values they hand back.

use vstd::prelude::*;

verus! {

/// JSON tree of the `serde_json` crate, opaque to the verifier.
#[verifier::external_type_specification]
#[verifier::external_body]
pub struct ExValue(serde_json::Value);

/// Relies on serde_json::from_str: parses text into a JSON tree, or reports
/// why the text is not valid JSON, rendered as text through Display.
#[verifier::external_body]
pub(crate) fn json_from_str(text: &str) -> Result<serde_json::Value, String> {
    match serde_json::from_str(text) {
        Ok(v) => Ok(v),
        Err(e) => Err(e.to_string()),
    }
}

/// Relies on serde_json::Value::get: Some(member) when the value is an object
/// with the given key, None otherwise.
#[verifier::external_body]
pub(crate) fn json_get<'a>(v: &'a serde_json::Value, key: &str) -> Option<&'a serde_json::Value> {
    v.get(key)
}

/// Relies on serde_json::Value::as_i64: Some when the value is an integer
/// JSON number representable as i64, None otherwise.
#[verifier::external_body]
pub(crate) fn json_as_i64(v: &serde_json::Value) -> Option<i64> {
    v.as_i64()
}

/// Relies on serde_json::Value::as_str: Some of the text when the value is a
/// JSON string, None otherwise.
#[verifier::external_body]
pub(crate) fn json_as_string(v: &serde_json::Value) -> Option<String> {
    v.as_str().map(str::to_owned)
}

/// Relies on serde_json::Value::is_null: true exactly when the value is JSON
/// null.
#[verifier::external_body]
pub(crate) fn json_is_null(v: &serde_json::Value) -> bool {
    v.is_null()
}

/// Relies on serde_json::Value::is_number: true exactly when the value is a
/// JSON number.
#[verifier::external_body]
pub(crate) fn json_is_number(v: &serde_json::Value) -> bool {
    v.is_number()
}

/// Relies on serde_json::Value::is_object: true exactly when the value is a
/// JSON object.
#[verifier::external_body]
pub(crate) fn json_is_object(v: &serde_json::Value) -> bool {
    v.is_object()
}

/// Relies on serde_json::Value's Clone: an owned copy of the value.
#[verifier::external_body]
pub(crate) fn json_clone(v: &serde_json::Value) -> serde_json::Value {
    v.clone()
}

} // verus!

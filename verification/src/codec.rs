//! Decoding of response envelopes and of the payloads the verified core
//! reads itself.
//!
//! Every decision in this module — which field is read, what shape it must
//! have, what happens when it is missing — is verified code; only the bare
//! JSON accessors come from the trusted boundary in [`crate::json`]. A parsed
//! JSON value is opaque to the verifier, so the contracts here state what
//! holds of every possible answer of those accessors; the exact protocol
//! rules are stated where plain values are in hand, in [`crate::token`] and
//! [`crate::http`].

use vstd::prelude::*;
use vstd::string::StringExecFns;

use crate::error::Error;
use crate::json::json_as_i64;
use crate::json::json_as_string;
use crate::json::json_clone;
use crate::json::json_from_str;
use crate::json::json_get;
use crate::json::json_is_null;
use crate::json::json_is_number;
use crate::json::json_is_object;
use crate::text::parse_i64;
use crate::models::ApiResponse;
use crate::models::TokenResponse;
use crate::models::TradeDate;

verus! {

/// Read the envelope string field named `key` from an envelope object:
/// the field's text when it is a string, nothing when it is absent, and a
/// decode failure when it is present with any other shape.
fn envelope_string_field(v: &serde_json::Value, key: &str) -> Result<Option<String>, ()> {
    match json_get(v, key) {
        None => Ok(None),
        Some(m) => match json_as_string(m) {
            Some(s) => Ok(Some(s)),
            None => Err(()),
        },
    }
}

/// Decode the uniform response envelope from a response body.
///
/// The envelope must be a JSON value with an integer `code` member in i32
/// range; the message is taken from `msg`, or from its alias `message`, and
/// is empty when neither is present; the `data` member is carried along
/// untouched, `None` when absent. Anything else is a parse error that carries
/// the raw response text.
pub fn parse_envelope(text: &str) -> (r: Result<ApiResponse, Error>)
    ensures
        r matches Err(e) ==> e matches Error::Parse { raw_response, err } && raw_response@
            == text@,
{
    let v = match json_from_str(text) {
        Ok(v) => v,
        Err(cause) => {
            let mut err = "failed to parse response: ".to_owned();
            err.append(cause.as_str());
            return Err(Error::parse(text.to_owned(), err));
        },
    };
    let code: i32 = match json_get(&v, "code") {
        Some(c) => match json_as_i64(c) {
            Some(n) => {
                if n >= i32::MIN as i64 && n <= i32::MAX as i64 {
                    n as i32
                } else {
                    return Err(
                        Error::parse(
                            text.to_owned(),
                            "failed to parse response: code out of range".to_owned(),
                        ),
                    );
                }
            },
            None => {
                return Err(
                    Error::parse(
                        text.to_owned(),
                        "failed to parse response: code is not an integer".to_owned(),
                    ),
                );
            },
        },
        None => {
            return Err(
                Error::parse(
                    text.to_owned(),
                    "failed to parse response: missing code".to_owned(),
                ),
            );
        },
    };
    let msg: String = match envelope_string_field(&v, "msg") {
        Ok(Some(s)) => s,
        Ok(None) => match envelope_string_field(&v, "message") {
            Ok(Some(s)) => s,
            Ok(None) => String::new(),
            Err(()) => {
                return Err(
                    Error::parse(
                        text.to_owned(),
                        "failed to parse response: message is not a string".to_owned(),
                    ),
                );
            },
        },
        Err(()) => {
            return Err(
                Error::parse(
                    text.to_owned(),
                    "failed to parse response: msg is not a string".to_owned(),
                ),
            );
        },
    };
    let data: Option<serde_json::Value> = match json_get(&v, "data") {
        Some(d) => Some(json_clone(d)),
        None => None,
    };
    Ok(ApiResponse { code, msg, data })
}

/// Decode the token payload from the data member of an authentication
/// envelope: an object with a `tokenType` string, a `token` string and an
/// `expiresIn` integer in i32 range. Anything else decodes to nothing.
pub fn decode_token_payload(data: Option<&serde_json::Value>) -> Option<TokenResponse> {
    let v = match data {
        Some(v) => v,
        None => {
            return None;
        },
    };
    let token_type = match json_get(v, "tokenType") {
        Some(t) => match json_as_string(t) {
            Some(s) => s,
            None => {
                return None;
            },
        },
        None => {
            return None;
        },
    };
    let access_token = match json_get(v, "token") {
        Some(t) => match json_as_string(t) {
            Some(s) => s,
            None => {
                return None;
            },
        },
        None => {
            return None;
        },
    };
    let expires_in: i32 = match json_get(v, "expiresIn") {
        Some(e) => match json_as_i64(e) {
            Some(n) => {
                if n >= i32::MIN as i64 && n <= i32::MAX as i64 {
                    n as i32
                } else {
                    return None;
                }
            },
            None => {
                return None;
            },
        },
        None => {
            return None;
        },
    };
    Some(TokenResponse { token_type, access_token, expires_in })
}

/// Read a JSON value as an i64 the lenient way several wire fields need:
/// an integer number is taken as it is, a string is parsed as a decimal
/// integer, and null counts as zero. Everything else is rejected with a
/// description of the shape that was found.
pub fn coerce_i64(v: &serde_json::Value) -> (r: Result<i64, String>)
    ensures
        r matches Err(m) ==> m@ == "invalid number"@ || m@ == "invalid string number"@ || m@
            == "expected string or number"@,
{
    if json_is_null(v) {
        return Ok(0);
    }
    match json_as_i64(v) {
        Some(n) => Ok(n),
        None => {
            if json_is_number(v) {
                return Err("invalid number".to_owned());
            }
            match json_as_string(v) {
                Some(s) => match parse_i64(s.as_str()) {
                    Some(n) => Ok(n),
                    None => Err("invalid string number".to_owned()),
                },
                None => Err("expected string or number".to_owned()),
            }
        },
    }
}

/// Decode the trade-date payload from the data member of an envelope: an
/// object whose `tradeDate` member is the date string; a missing or null
/// `tradeDate` decodes to an empty date; anything that is not an object, or
/// a `tradeDate` of any other shape, decodes to nothing.
pub fn decode_trade_date(data: Option<&serde_json::Value>) -> Option<TradeDate> {
    let v = match data {
        Some(v) => v,
        None => {
            return None;
        },
    };
    if !json_is_object(v) {
        return None;
    }
    match json_get(v, "tradeDate") {
        None => Some(TradeDate { date: String::new() }),
        Some(d) => {
            if json_is_null(d) {
                Some(TradeDate { date: String::new() })
            } else {
                match json_as_string(d) {
                    Some(s) => Some(TradeDate { date: s }),
                    None => None,
                }
            }
        },
    }
}

} // verus!

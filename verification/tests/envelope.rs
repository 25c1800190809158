use dceapi::decode_token_payload;
use dceapi::decode_trade_date;
use dceapi::parse_envelope;
use dceapi::Error;

#[test]
fn success_envelope_decodes() {
    let text = r#"{"code":200,"msg":"ok","data":{"x":1}}"#;
    let env = parse_envelope(text).unwrap();
    assert_eq!(env.code, 200);
    assert_eq!(env.msg, "ok");
    assert!(env.data.is_some());
}

#[test]
fn message_alias_is_accepted() {
    let env = parse_envelope(r#"{"code":401,"message":"denied"}"#).unwrap();
    assert_eq!(env.code, 401);
    assert_eq!(env.msg, "denied");
    assert!(env.data.is_none());
}

#[test]
fn missing_message_defaults_to_empty() {
    let env = parse_envelope(r#"{"code":500}"#).unwrap();
    assert_eq!(env.code, 500);
    assert_eq!(env.msg, "");
}

#[test]
fn invalid_json_is_a_parse_error_with_raw_text() {
    let text = "{not json";
    match parse_envelope(text) {
        Err(Error::Parse { raw_response, err }) => {
            assert_eq!(raw_response, text);
            assert!(err.starts_with("failed to parse response: "));
        }
        other => panic!("expected Parse error, got {:?}", other),
    }
}

#[test]
fn missing_code_is_a_parse_error() {
    match parse_envelope(r#"{"msg":"ok"}"#) {
        Err(Error::Parse { raw_response, err }) => {
            assert_eq!(raw_response, r#"{"msg":"ok"}"#);
            assert_eq!(err, "failed to parse response: missing code");
        }
        other => panic!("expected Parse error, got {:?}", other),
    }
}

#[test]
fn non_integer_code_is_a_parse_error() {
    assert!(parse_envelope(r#"{"code":"200"}"#).is_err());
    assert!(parse_envelope(r#"{"code":1.5}"#).is_err());
    assert!(parse_envelope(r#"{"code":3000000000}"#).is_err());
}

#[test]
fn non_string_message_is_a_parse_error() {
    assert!(parse_envelope(r#"{"code":200,"msg":7}"#).is_err());
    assert!(parse_envelope(r#"{"code":200,"message":[1]}"#).is_err());
}

#[test]
fn trade_date_round_trip() {
    // the documented round trip for the trade-date endpoint
    let text = r#"{"code":200,"msg":"ok","data":{"tradeDate":"20240115"}}"#;
    let env = parse_envelope(text).unwrap();
    assert_eq!(env.code, 200);
    let td = decode_trade_date(env.data.as_ref()).unwrap();
    assert_eq!(td.date, "20240115");
}

#[test]
fn trade_date_tolerates_missing_or_null_field() {
    let env = parse_envelope(r#"{"code":200,"data":{}}"#).unwrap();
    assert_eq!(decode_trade_date(env.data.as_ref()).unwrap().date, "");
    let env2 = parse_envelope(r#"{"code":200,"data":{"tradeDate":null}}"#).unwrap();
    assert_eq!(decode_trade_date(env2.data.as_ref()).unwrap().date, "");
}

#[test]
fn trade_date_rejects_wrong_shapes() {
    let env = parse_envelope(r#"{"code":200,"data":[1,2]}"#).unwrap();
    assert!(decode_trade_date(env.data.as_ref()).is_none());
    let env2 = parse_envelope(r#"{"code":200,"data":{"tradeDate":99}}"#).unwrap();
    assert!(decode_trade_date(env2.data.as_ref()).is_none());
    assert!(decode_trade_date(None).is_none());
}

#[test]
fn token_payload_decodes_all_fields() {
    let env = parse_envelope(
        r#"{"code":200,"msg":"ok","data":{"tokenType":"Bearer","token":"abc","expiresIn":7200}}"#,
    )
    .unwrap();
    let p = decode_token_payload(env.data.as_ref()).unwrap();
    assert_eq!(p.token_type, "Bearer");
    assert_eq!(p.access_token, "abc");
    assert_eq!(p.expires_in, 7200);
}

#[test]
fn token_payload_requires_every_field() {
    let missing_token =
        parse_envelope(r#"{"code":200,"data":{"tokenType":"Bearer","expiresIn":10}}"#).unwrap();
    assert!(decode_token_payload(missing_token.data.as_ref()).is_none());
    let wrong_type = parse_envelope(
        r#"{"code":200,"data":{"tokenType":"Bearer","token":5,"expiresIn":10}}"#,
    )
    .unwrap();
    assert!(decode_token_payload(wrong_type.data.as_ref()).is_none());
    assert!(decode_token_payload(None).is_none());
}

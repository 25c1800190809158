use dceapi::Error;
use dceapi::ErrorCode;

#[test]
fn from_code_maps_documented_codes() {
    assert_eq!(ErrorCode::from_code(200), Some(ErrorCode::Success));
    assert_eq!(ErrorCode::from_code(400), Some(ErrorCode::ParamError));
    assert_eq!(ErrorCode::from_code(401), Some(ErrorCode::NoPermission));
    assert_eq!(ErrorCode::from_code(402), Some(ErrorCode::TokenExpired));
    assert_eq!(ErrorCode::from_code(500), Some(ErrorCode::ServerError));
    assert_eq!(ErrorCode::from_code(501), Some(ErrorCode::RateLimit));
}

#[test]
fn from_code_rejects_unknown_codes() {
    assert_eq!(ErrorCode::from_code(0), None);
    assert_eq!(ErrorCode::from_code(201), None);
    assert_eq!(ErrorCode::from_code(403), None);
    assert_eq!(ErrorCode::from_code(-1), None);
    assert_eq!(ErrorCode::from_code(502), None);
}

#[test]
fn code_values_round_trip() {
    for code in [200, 400, 401, 402, 500, 501] {
        let kind = ErrorCode::from_code(code).unwrap();
        assert_eq!(kind.code(), code);
    }
}

#[test]
fn api_error_constructor_keeps_code_and_message() {
    let e = Error::api(500, "boom".to_string());
    match e {
        Error::Api { code, message } => {
            assert_eq!(code, 500);
            assert_eq!(message, "boom");
        }
        other => panic!("expected Api error, got {:?}", other),
    }
}

#[test]
fn is_token_expired_only_for_api_402() {
    assert!(Error::api(402, "expired".to_string()).is_token_expired());
    assert!(!Error::api(400, "bad".to_string()).is_token_expired());
    assert!(!Error::auth("nope".to_string()).is_token_expired());
    assert!(!Error::network("down".to_string()).is_token_expired());
    assert!(!Error::validation("f".to_string(), "m".to_string()).is_token_expired());
    assert!(!Error::parse("raw".to_string(), "why".to_string()).is_token_expired());
}

#[test]
fn error_code_reads_api_errors_only() {
    assert_eq!(
        Error::api(402, "x".to_string()).error_code(),
        Some(ErrorCode::TokenExpired)
    );
    assert_eq!(Error::api(777, "x".to_string()).error_code(), None);
    assert_eq!(Error::auth("x".to_string()).error_code(), None);
}

#[test]
fn validation_and_parse_constructors_keep_fields() {
    match Error::validation("api_key".to_string(), "API key is required".to_string()) {
        Error::Validation { field, message } => {
            assert_eq!(field, "api_key");
            assert_eq!(message, "API key is required");
        }
        other => panic!("expected Validation error, got {:?}", other),
    }
    match Error::parse("{bad".to_string(), "oops".to_string()) {
        Error::Parse { raw_response, err } => {
            assert_eq!(raw_response, "{bad");
            assert_eq!(err, "oops");
        }
        other => panic!("expected Parse error, got {:?}", other),
    }
}

#[test]
fn message_renders_each_variant() {
    assert_eq!(
        Error::api(402, "token expired".to_string()).message(),
        "API error 402: token expired"
    );
    assert_eq!(
        Error::api(-3, "odd".to_string()).message(),
        "API error -3: odd"
    );
    assert_eq!(
        Error::auth("bad secret".to_string()).message(),
        "authentication error: bad secret"
    );
    assert_eq!(
        Error::network("timed out".to_string()).message(),
        "network error: timed out"
    );
    assert_eq!(
        Error::validation("column_id".to_string(), "unknown".to_string()).message(),
        "validation error on field 'column_id': unknown"
    );
    assert_eq!(
        Error::parse("{}".to_string(), "missing field".to_string()).message(),
        "parse error: missing field, raw response: {}"
    );
}

use dceapi::Config;
use dceapi::Error;
use dceapi::DEFAULT_BASE_URL;
use dceapi::DEFAULT_LANG;
use dceapi::DEFAULT_TIMEOUT_SECS;
use dceapi::DEFAULT_TRADE_TYPE;

#[test]
fn new_config_has_documented_defaults() {
    let c = Config::new();
    assert_eq!(c.base_url, DEFAULT_BASE_URL);
    assert_eq!(c.base_url, "http://www.dce.com.cn");
    assert_eq!(c.api_key, "");
    assert_eq!(c.secret, "");
    assert_eq!(c.timeout_secs, DEFAULT_TIMEOUT_SECS);
    assert_eq!(c.timeout_secs, 30);
    assert_eq!(c.lang, DEFAULT_LANG);
    assert_eq!(c.lang, "zh");
    assert_eq!(c.trade_type, DEFAULT_TRADE_TYPE);
    assert_eq!(c.trade_type, 1);
}

#[test]
fn default_matches_new() {
    let c = Config::default();
    assert_eq!(c.base_url, "http://www.dce.com.cn");
    assert_eq!(c.timeout_secs, 30);
    assert_eq!(c.lang, "zh");
    assert_eq!(c.trade_type, 1);
}

#[test]
fn builders_replace_their_field() {
    let c = Config::new()
        .with_base_url("http://example.invalid".to_string())
        .with_api_key("key".to_string())
        .with_secret("sec".to_string())
        .with_timeout(7)
        .with_lang("en".to_string())
        .with_trade_type(2);
    assert_eq!(c.base_url, "http://example.invalid");
    assert_eq!(c.api_key, "key");
    assert_eq!(c.secret, "sec");
    assert_eq!(c.timeout_secs, 7);
    assert_eq!(c.lang, "en");
    assert_eq!(c.trade_type, 2);
}

#[test]
fn validate_rejects_missing_api_key_first() {
    let c = Config::new();
    match c.validate() {
        Err(Error::Validation { field, message }) => {
            assert_eq!(field, "api_key");
            assert_eq!(message, "API key is required");
        }
        other => panic!("expected Validation error, got {:?}", other),
    }
}

#[test]
fn validate_rejects_missing_secret() {
    let c = Config::new().with_api_key("key".to_string());
    match c.validate() {
        Err(Error::Validation { field, message }) => {
            assert_eq!(field, "secret");
            assert_eq!(message, "secret is required");
        }
        other => panic!("expected Validation error, got {:?}", other),
    }
}

#[test]
fn validate_accepts_complete_credentials() {
    let c = Config::new()
        .with_api_key("key".to_string())
        .with_secret("sec".to_string());
    assert!(c.validate().is_ok());
}

#[test]
fn apply_defaults_fills_empty_fields_only() {
    let mut c = Config::new()
        .with_base_url(String::new())
        .with_api_key("key".to_string())
        .with_timeout(0)
        .with_lang(String::new())
        .with_trade_type(0);
    c.apply_defaults();
    assert_eq!(c.base_url, "http://www.dce.com.cn");
    assert_eq!(c.timeout_secs, 30);
    assert_eq!(c.lang, "zh");
    assert_eq!(c.trade_type, 1);
    assert_eq!(c.api_key, "key");
    assert_eq!(c.secret, "");
}

#[test]
fn apply_defaults_keeps_set_fields() {
    let mut c = Config::new()
        .with_base_url("http://example.invalid".to_string())
        .with_timeout(5)
        .with_lang("en".to_string())
        .with_trade_type(2);
    c.apply_defaults();
    assert_eq!(c.base_url, "http://example.invalid");
    assert_eq!(c.timeout_secs, 5);
    assert_eq!(c.lang, "en");
    assert_eq!(c.trade_type, 2);
}

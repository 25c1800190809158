use dceapi::coerce_i64;
use dceapi::parse_i64;

#[test]
fn parse_plain_numbers() {
    assert_eq!(parse_i64("0"), Some(0));
    assert_eq!(parse_i64("42"), Some(42));
    assert_eq!(parse_i64("007"), Some(7));
    assert_eq!(parse_i64("-7"), Some(-7));
    assert_eq!(parse_i64("+10"), Some(10));
}

#[test]
fn parse_extremes_of_the_range() {
    assert_eq!(parse_i64("9223372036854775807"), Some(i64::MAX));
    assert_eq!(parse_i64("-9223372036854775808"), Some(i64::MIN));
    assert_eq!(parse_i64("+9223372036854775807"), Some(i64::MAX));
}

#[test]
fn parse_rejects_out_of_range() {
    assert_eq!(parse_i64("9223372036854775808"), None);
    assert_eq!(parse_i64("-9223372036854775809"), None);
    assert_eq!(parse_i64("99999999999999999999999"), None);
}

#[test]
fn parse_rejects_malformed_text() {
    assert_eq!(parse_i64(""), None);
    assert_eq!(parse_i64("-"), None);
    assert_eq!(parse_i64("+"), None);
    assert_eq!(parse_i64(" 42"), None);
    assert_eq!(parse_i64("42 "), None);
    assert_eq!(parse_i64("12x"), None);
    assert_eq!(parse_i64("x12"), None);
    assert_eq!(parse_i64("1.5"), None);
    assert_eq!(parse_i64("--3"), None);
}

fn value(text: &str) -> serde_json::Value {
    serde_json::from_str(text).unwrap()
}

#[test]
fn coerce_accepts_integers_strings_and_null() {
    assert_eq!(coerce_i64(&value("64")), Ok(64));
    assert_eq!(coerce_i64(&value("-3")), Ok(-3));
    assert_eq!(coerce_i64(&value("\"128\"")), Ok(128));
    assert_eq!(coerce_i64(&value("\"-9\"")), Ok(-9));
    assert_eq!(coerce_i64(&value("null")), Ok(0));
}

#[test]
fn coerce_rejects_other_shapes() {
    assert_eq!(coerce_i64(&value("1.25")), Err("invalid number".to_string()));
    assert_eq!(
        coerce_i64(&value("18446744073709551615")),
        Err("invalid number".to_string())
    );
    assert_eq!(
        coerce_i64(&value("\"abc\"")),
        Err("invalid string number".to_string())
    );
    assert_eq!(
        coerce_i64(&value("true")),
        Err("expected string or number".to_string())
    );
    assert_eq!(
        coerce_i64(&value("[1]")),
        Err("expected string or number".to_string())
    );
}

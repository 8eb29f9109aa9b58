use riot_api::failure::{DecodeFailure, DecodeReason};
use riot_api::json::Json;

fn text(value: &str) -> Json {
    Json::Str(String::from(value))
}

#[test]
fn parse_scalars() {
    assert_eq!(Json::parse("null"), Ok(Json::Null));
    assert_eq!(Json::parse("true"), Ok(Json::Bool(true)));
    assert_eq!(Json::parse("false"), Ok(Json::Bool(false)));
    assert_eq!(Json::parse("0"), Ok(Json::Int(0)));
    assert_eq!(Json::parse("-12"), Ok(Json::Int(-12)));
    assert_eq!(Json::parse("18446744073709551615"), Ok(Json::Int(18446744073709551615)));
    assert_eq!(Json::parse("-9223372036854775808"), Ok(Json::Int(-9223372036854775808)));
    assert_eq!(Json::parse("\"a\\nb\\u00e9\""), Ok(text("a\nb\u{e9}")));
}

#[test]
fn parse_numbers_with_fraction_or_exponent_are_real() {
    assert_eq!(Json::parse("1.5"), Ok(Json::Real(String::from("1.5"))));
    assert_eq!(Json::parse("-0.25"), Ok(Json::Real(String::from("-0.25"))));
    assert!(matches!(Json::parse("1e3"), Ok(Json::Real(_))));
    assert!(matches!(Json::parse("18446744073709551616"), Ok(Json::Real(_))));
}

#[test]
fn parse_arrays_keep_order() {
    assert_eq!(
        Json::parse("[3, \"x\", [], null]"),
        Ok(Json::Array(vec![Json::Int(3), text("x"), Json::Array(vec![]), Json::Null]))
    );
}

#[test]
fn parse_objects() {
    let parsed = Json::parse("{\"b\": 1, \"a\": {\"c\": [true]}}").unwrap();
    assert_eq!(parsed.member("b"), Some(&Json::Int(1)));
    assert_eq!(
        parsed.member("a"),
        Some(&Json::Object(vec![(String::from("c"), Json::Array(vec![Json::Bool(true)]))]))
    );
    assert_eq!(parsed.member("c"), None);
    assert_eq!(parsed.member(""), None);
}

#[test]
fn parse_rejects_malformed_text() {
    let malformed = DecodeFailure { path: vec![], reason: DecodeReason::Malformed };
    for input in ["", " ", "{", "[1,", "{\"a\" 1}", "tru", "1 2", "{\"a\":1,}", "'a'", "nul"] {
        assert_eq!(Json::parse(input), Err(malformed.clone()), "{:?}", input);
    }
}

#[test]
fn member_of_a_value_that_is_no_object_is_none() {
    assert_eq!(Json::Null.member("a"), None);
    assert_eq!(Json::Array(vec![Json::Int(1)]).member("0"), None);
    assert_eq!(text("a").member("a"), None);
}

#[test]
fn member_takes_the_last_of_equal_keys() {
    let object = Json::Object(vec![
        (String::from("k"), Json::Int(1)),
        (String::from("other"), Json::Int(2)),
        (String::from("k"), Json::Int(3)),
    ]);
    assert_eq!(object.member("k"), Some(&Json::Int(3)));
    assert_eq!(object.member("other"), Some(&Json::Int(2)));
}

#[test]
fn parse_keeps_the_last_of_equal_keys() {
    let parsed = Json::parse("{\"k\": 1, \"k\": 2}").unwrap();
    assert_eq!(parsed.member("k"), Some(&Json::Int(2)));
}

#[test]
fn member_keys_are_compared_exactly() {
    let object = Json::Object(vec![(String::from("Key"), Json::Int(1))]);
    assert_eq!(object.member("key"), None);
    assert_eq!(object.member("Key "), None);
    assert_eq!(object.member("Key"), Some(&Json::Int(1)));
}

#[test]
fn clone_gives_an_equal_value() {
    let value = Json::parse("{\"a\":[1,2.5,\"x\",null,{\"b\":true}],\"c\":{}}").unwrap();
    assert_eq!(value.clone(), value);
    assert_eq!(Json::Null.clone(), Json::Null);
}

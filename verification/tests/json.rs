use mcp_pool::json::{Json, NESTING_LIMIT};

#[test]
fn values_survive_their_text() {
    for text in [
        "null",
        "true",
        "[]",
        "{}",
        "-9223372036854775808",
        "18446744073709551615",
        "\"\\u0001 \u{e9}\"",
        "{\"a\":[1,{\"b\":\"c\"}],\"d\":null}",
        "1e300",
    ] {
        let value = Json::parse(text).unwrap();
        let again = Json::parse(&value.to_line()).unwrap();
        assert_eq!(value, again);
        assert_eq!(value.clone(), value);
    }
}

#[test]
fn text_that_is_not_json_is_refused() {
    for text in ["", "{", "nul", "[1,]", "{} x"] {
        assert!(Json::parse(text).is_none());
    }
}

#[test]
fn nesting_is_followed_to_its_limit() {
    let nested = |depth: usize| format!("{}{}", "[".repeat(depth), "]".repeat(depth));
    assert!(Json::parse(&nested(NESTING_LIMIT)).is_some());
    assert!(Json::parse(&nested(NESTING_LIMIT + 1)).is_none());
}

#[test]
fn fields_are_written_in_the_order_of_their_names() {
    let value = Json::parse("{\"b\":1,\"a\":2,\"b\":3}").unwrap();
    assert_eq!(value.to_line(), "{\"a\":2,\"b\":3}");
}

#[test]
fn pretty_text_is_indented() {
    let value = Json::parse("{\"a\":[1]}").unwrap();
    assert_eq!(value.to_pretty().unwrap(), "{\n  \"a\": [\n    1\n  ]\n}");
}

#[test]
fn numbers_are_read_as_integers_where_they_are() {
    assert_eq!(Json::Unsigned(7).as_i64(), Some(7));
    assert_eq!(Json::Unsigned(u64::MAX).as_i64(), None);
    assert_eq!(Json::integer(-7).as_i64(), Some(-7));
    assert_eq!(Json::integer(-7).as_u64(), None);
    assert_eq!(Json::integer(7).as_u64(), Some(7));
    assert_eq!(Json::parse("-32001.0").unwrap().as_i64(), None);
    assert_eq!(Json::string("7").as_i64(), None);
}

#[test]
fn fields_are_found_in_objects_only() {
    let value = Json::parse("{\"a\":{\"b\":\"c\"}}").unwrap();
    assert_eq!(value.get("a").and_then(|a| a.get("b")).and_then(|b| b.as_str()), Some("c"));
    assert!(value.get("b").is_none());
    assert!(Json::parse("[\"a\"]").unwrap().get("a").is_none());
    assert!(value.as_array().is_none());
    assert_eq!(Json::parse("[1,2]").unwrap().as_array().map(|items| items.len()), Some(2));
}

#[test]
fn equal_integers_are_equal_values() {
    assert_eq!(Json::integer(5), Json::Unsigned(5));
    assert_eq!(Json::integer(0), Json::parse("0").unwrap());
    assert_eq!(Json::integer(-5), Json::parse("-5").unwrap());
    assert_eq!(Json::integer(i64::MIN).to_line(), "-9223372036854775808");
    assert_ne!(Json::integer(-5), Json::Unsigned(5));
    assert_ne!(Json::parse("5.0").unwrap(), Json::Unsigned(5));
}

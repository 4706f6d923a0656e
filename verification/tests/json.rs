use godot_agent::codec::{compact_bytes, compact_text, parse_json, pretty_text};
use godot_agent::json::{text_array, Fields, Json, Scalar};

#[test]
fn text_goes_in_and_out() {
    let json = parse_json("{ \"b\": 1.5, \"a\": [1, null, true, \"x\"] }").unwrap();
    assert_eq!(compact_text(&json), "{\"a\":[1,null,true,\"x\"],\"b\":1.5}");
    assert_eq!(compact_bytes(&json), b"{\"a\":[1,null,true,\"x\"],\"b\":1.5}".to_vec());
    assert_eq!(
        pretty_text(&json),
        "{\n  \"a\": [\n    1,\n    null,\n    true,\n    \"x\"\n  ],\n  \"b\": 1.5\n}"
    );
}

#[test]
fn bytes_are_utf8() {
    assert_eq!(compact_bytes(&Json::text("é")), vec![34, 0xc3, 0xa9, 34]);
}

#[test]
fn parse_error_has_a_message() {
    assert_eq!(parse_json("").unwrap_err(), "EOF while parsing a value at line 1 column 0");
    assert_eq!(parse_json("{]").unwrap_err(), "key must be a string at line 1 column 2");
}

#[test]
fn later_field_counts() {
    let json = parse_json("{\"a\":1,\"a\":2}").unwrap();
    assert_eq!(json.integer_field("a"), Some(2));
    let fields = Fields::new().with("k", Json::Integer(1)).with("k", Json::Integer(2));
    assert_eq!(fields.get("k").unwrap().as_i64(), Some(2));
    assert!(fields.get("l").is_none());
    assert_eq!(compact_text(&Json::Object(fields)), "{\"k\":2}");
}

#[test]
fn numbers_keep_their_kind() {
    let json = parse_json("[0, -5, 9223372036854775807, 9223372036854775808, 1.0, -9223372036854775808]").unwrap();
    let items = json.as_array().unwrap();
    assert_eq!(items[0].as_i64(), Some(0));
    assert_eq!(items[1].as_i64(), Some(-5));
    assert_eq!(items[2].as_i64(), Some(i64::MAX));
    assert_eq!(items[3].as_i64(), None);
    assert_eq!(items[4].as_i64(), None);
    assert_eq!(items[5].as_i64(), Some(i64::MIN));
    assert_eq!(
        compact_text(&json),
        "[0,-5,9223372036854775807,9223372036854775808,1.0,-9223372036854775808]"
    );
    assert!(items[4].as_number().is_some());
    assert_eq!(Json::Number(serde_json::Number::from(4)).as_i64(), Some(4));
}

#[test]
fn fields_are_read_by_kind() {
    let json = parse_json("{\"t\":\"x\",\"i\":3,\"b\":true,\"f\":0.5,\"n\":null}").unwrap();
    assert_eq!(json.text_field("t"), Some("x"));
    assert_eq!(json.text_field("i"), None);
    assert_eq!(json.integer_field("i"), Some(3));
    assert_eq!(json.integer_field("f"), None);
    assert_eq!(json.boolean_field("b"), Some(true));
    assert_eq!(json.boolean_field("t"), None);
    assert!(matches!(json.number_field("f"), Some(Scalar::Number(_))));
    assert!(json.number_field("t").is_none());
    assert!(matches!(json.get("n"), Some(Json::Null)));
    assert!(json.get("missing").is_none());
    assert!(Json::text("t").get("t").is_none());
}

#[test]
fn clone_is_the_same_value() {
    let text = "{\"a\":[{\"b\":1.25},[],\"s\"],\"z\":-1}";
    let json = parse_json(text).unwrap();
    assert_eq!(compact_text(&json.clone()), text);
    assert_eq!(compact_text(&json), text);
}

#[test]
fn text_arrays() {
    assert_eq!(
        compact_text(&text_array(&vec!["a".to_string(), "\"".to_string()])),
        "[\"a\",\"\\\"\"]"
    );
    assert_eq!(compact_text(&text_array(&vec![])), "[]");
}

#[test]
fn compact_text_is_one_line() {
    let json = Json::Object(Fields::new().with("a\nb", Json::text("c\n\u{1}d")));
    assert_eq!(compact_text(&json), "{\"a\\nb\":\"c\\n\\u0001d\"}");
}

#[test]
fn of_many_fields_under_a_key_the_last_is_written() {
    let mut fields = Fields::new();
    for i in 0..200i64 {
        let key = if i % 2 == 0 { "even" } else { "odd" };
        fields.put(key, Json::Integer(i));
    }
    fields.put("last", Json::Bool(true));
    assert_eq!(compact_text(&Json::Object(fields)), "{\"even\":198,\"last\":true,\"odd\":199}");
}

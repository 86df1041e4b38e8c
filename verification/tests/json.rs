use indexify::json::from_str_to_json;
use indexify::json::parse;
use indexify::json::reading_of;
use indexify::json::JsonValue;
use indexify::json::Member;

fn number(text: &str) -> JsonValue {
    JsonValue::Number(text.to_string())
}

fn string(text: &str) -> JsonValue {
    JsonValue::String(text.to_string())
}

#[test]
fn parse_reads_scalars() {
    assert_eq!(parse("null"), Ok(JsonValue::Null));
    assert_eq!(parse("true"), Ok(JsonValue::Bool(true)));
    assert_eq!(parse("false"), Ok(JsonValue::Bool(false)));
    assert_eq!(parse("42"), Ok(number("42")));
    assert_eq!(parse("-7"), Ok(number("-7")));
    assert_eq!(parse("18446744073709551615"), Ok(number("18446744073709551615")));
    assert_eq!(parse("2.5"), Ok(number("2.5")));
    assert_eq!(parse("\"a\\nb\""), Ok(string("a\nb")));
    assert_eq!(parse(" 42 "), Ok(number("42")));
}

#[test]
fn parse_reads_nested_values() {
    let parsed = parse("{\"b\": [1, {\"c\": \"d\"}], \"a\": {}}").unwrap();
    assert_eq!(
        parsed,
        JsonValue::Object(vec![
            Member { key: "a".to_string(), value: JsonValue::Object(vec![]) },
            Member {
                key: "b".to_string(),
                value: JsonValue::Array(vec![
                    number("1"),
                    JsonValue::Object(vec![Member { key: "c".to_string(), value: string("d") }]),
                ]),
            },
        ])
    );
}

#[test]
fn parse_turns_down_what_is_no_json() {
    assert!(parse("hello world").is_err());
    assert!(parse("").is_err());
    assert!(parse("{").is_err());
    assert!(parse("42 43").is_err());
    assert!(parse("'single'").is_err());
}

#[test]
fn a_text_that_is_json_reads_as_its_value_not_as_itself() {
    assert_eq!(from_str_to_json("42"), number("42"));
    assert_ne!(from_str_to_json("42"), string("42"));
    assert_eq!(from_str_to_json("\"42\""), string("42"));
    assert_eq!(from_str_to_json("[]"), JsonValue::Array(vec![]));
}

#[test]
fn a_text_that_is_no_json_reads_as_itself() {
    assert_eq!(from_str_to_json("hello world"), string("hello world"));
    assert_eq!(from_str_to_json(""), string(""));
    assert_eq!(from_str_to_json("{not json}"), string("{not json}"));
}

#[test]
fn reading_follows_the_outcome_of_parsing() {
    assert_eq!(reading_of("anything", Ok(JsonValue::Bool(false))), JsonValue::Bool(false));
    assert_eq!(reading_of("anything", Err("expected value".to_string())), string("anything"));
}

#[test]
fn a_copy_is_equal_to_what_it_copies() {
    let value = parse("{\"a\": [1, 2, {\"b\": null}], \"c\": \"d\", \"e\": true}").unwrap();
    assert_eq!(value.duplicate(), value);
    assert_eq!(value.clone(), value);
}

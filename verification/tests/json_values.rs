use security::json::{lookup, parse_json_value, JsonNumber, JsonValue};
use security::SecurityError;

fn object() -> JsonValue {
    JsonValue::Object(vec![
        ("name".to_owned(), JsonValue::String("tool".to_owned())),
        ("flag".to_owned(), JsonValue::Bool(true)),
        ("count".to_owned(), JsonValue::Number(JsonNumber::PosInt(7))),
        ("delta".to_owned(), JsonValue::Number(JsonNumber::NegInt(-2))),
        ("ratio".to_owned(), JsonValue::Number(JsonNumber::Float("0.5".to_owned()))),
    ])
}

#[test]
fn members_are_found_by_key() {
    let value = object();
    assert_eq!(value.get("name").and_then(JsonValue::as_str), Some("tool"));
    assert_eq!(value.get("flag").and_then(JsonValue::as_bool), Some(true));
    assert_eq!(value.get("missing"), None);
    assert_eq!(JsonValue::Null.get("name"), None);
}

#[test]
fn numbers_convert_when_they_fit() {
    let value = object();
    assert_eq!(value.get("count").and_then(JsonValue::as_i64), Some(7));
    assert_eq!(value.get("count").and_then(JsonValue::as_u64), Some(7));
    assert_eq!(value.get("delta").and_then(JsonValue::as_i64), Some(-2));
    assert_eq!(value.get("delta").and_then(JsonValue::as_u64), None);
    assert_eq!(value.get("ratio").and_then(JsonValue::as_i64), None);
    assert_eq!(JsonNumber::PosInt(u64::MAX).as_i64(), None);
    assert_eq!(JsonNumber::NegInt(-2).to_string(), "-2");
    assert_eq!(JsonNumber::Float("0.5".to_owned()).to_string(), "0.5");
}

#[test]
fn lookup_reads_member_lists() {
    let members = vec![("a".to_owned(), JsonValue::Bool(false))];
    assert_eq!(lookup(&members, "a"), Some(&JsonValue::Bool(false)));
    assert_eq!(lookup(&members, "b"), None);
}

#[test]
fn bridge_json_text_is_read_into_values() {
    let value = parse_json_value(r#"{"b":[1,-2,1.5,null],"a":"x","c":true}"#).unwrap();
    assert_eq!(
        value,
        JsonValue::Object(vec![
            ("a".to_owned(), JsonValue::String("x".to_owned())),
            (
                "b".to_owned(),
                JsonValue::Array(vec![
                    JsonValue::Number(JsonNumber::PosInt(1)),
                    JsonValue::Number(JsonNumber::NegInt(-2)),
                    JsonValue::Number(JsonNumber::Float("1.5".to_owned())),
                    JsonValue::Null,
                ]),
            ),
            ("c".to_owned(), JsonValue::Bool(true)),
        ])
    );
    match parse_json_value("[1,") {
        Err(SecurityError::Serialization(message)) => {
            assert!(message.starts_with("invalid bridge JSON: EOF while parsing"))
        }
        other => panic!("unexpected {other:?}"),
    }
}

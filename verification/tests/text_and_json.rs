use security::json_text::{
    bridge_string_list, json_literal, optional_bridge_string_list, optional_byte_lists_json,
    owned_string_list_json,
};
use security::text::{decimal, signed_decimal, with_decimal};

#[test]
fn decimals_are_exact() {
    assert_eq!(decimal(0), "0");
    assert_eq!(decimal(1_234_567_890), "1234567890");
    assert_eq!(decimal(u64::MAX), "18446744073709551615");
    assert_eq!(signed_decimal(-42), "-42");
    assert_eq!(signed_decimal(i64::MIN), "-9223372036854775808");
    assert_eq!(with_decimal("count: ", 7), "count: 7");
}

#[test]
fn string_literals_come_from_serde_json() {
    assert_eq!(json_literal("a\"b\n").unwrap(), "\"a\\\"b\\n\"");
    assert_eq!(json_literal("").unwrap(), "\"\"");
}

#[test]
fn string_lists_are_json_arrays() {
    assert_eq!(bridge_string_list(&[]).unwrap(), "[]");
    assert_eq!(bridge_string_list(&["a", "b\"c"]).unwrap(), r#"["a","b\"c"]"#);
    assert_eq!(owned_string_list_json(&["a".to_owned(), "b".to_owned()]).unwrap(), r#"["a","b"]"#);
    assert_eq!(owned_string_list_json(&[]).unwrap(), "[]");
    assert_eq!(bridge_string_list(&["system.privilege.admin"]).unwrap(), r#"["system.privilege.admin"]"#);
    assert_eq!(optional_bridge_string_list(&[]).unwrap(), None);
    assert_eq!(optional_bridge_string_list(&["x"]).unwrap(), Some(r#"["x"]"#.to_owned()));
}

#[test]
fn byte_lists_are_arrays_of_numbers() {
    assert_eq!(optional_byte_lists_json(&[]), None);
    assert_eq!(
        optional_byte_lists_json(&[vec![1, 2, 255], vec![]]),
        Some("[[1,2,255],[]]".to_owned())
    );
    let expected: serde_json::Value = serde_json::from_str("[[0],[10,20]]").unwrap();
    let written = optional_byte_lists_json(&[vec![0], vec![10, 20]]).unwrap();
    let read: serde_json::Value = serde_json::from_str(&written).unwrap();
    assert_eq!(read, expected);
}

#[test]
fn string_literals_escape_quotes_backslashes_and_controls() {
    assert_eq!(json_literal("\u{1}\u{1f}").unwrap(), "\"\\u0001\\u001f\"");
    assert_eq!(json_literal("\u{8}\t\n\u{c}\r").unwrap(), "\"\\b\\t\\n\\f\\r\"");
    assert_eq!(json_literal("\"\\/é\u{7f}").unwrap(), "\"\\\"\\\\/é\u{7f}\"");
    assert_eq!(bridge_string_list(&["x\ny", ""]).unwrap(), "[\"x\\ny\",\"\"]");
}

use security::code::{Code, SigningInformation, SigningValue, StaticCode};
use security::code_signing::{self, cf_type_to_value, signing_query_outcome, CfValue};
use security::json::{JsonNumber, JsonValue};
use security::SecurityError;

fn text(value: &str) -> JsonValue {
    JsonValue::String(value.to_owned())
}

fn member(key: &str, value: JsonValue) -> (String, JsonValue) {
    (key.to_owned(), value)
}

const METADATA_TEXT: &str = r#"{"identifier":"com.example.tool","TeamIdentifier":"TEAMID1234","entitlements-dict":{"com.apple.security.app-sandbox":true},"status":65536}"#;

fn metadata() -> JsonValue {
    JsonValue::Object(vec![
        member("identifier", text("com.example.tool")),
        member("TeamIdentifier", text("TEAMID1234")),
        member(
            "entitlements-dict",
            JsonValue::Object(vec![
                member("com.apple.security.app-sandbox", JsonValue::Bool(true)),
                member(
                    "blob",
                    JsonValue::Object(vec![member("_type", text("data")), member("base64", text("AQI="))]),
                ),
                member("count", JsonValue::Number(JsonNumber::PosInt(3))),
                member("groups", JsonValue::Array(vec![text("g1"), JsonValue::Null])),
            ]),
        ),
        member("status", JsonValue::Number(JsonNumber::PosInt(65536))),
    ])
}

#[test]
fn signing_information_is_read_from_the_metadata() {
    let info = SigningInformation::from_json(&metadata());
    assert!(info.is_signed());
    assert_eq!(info.identifier.as_deref(), Some("com.example.tool"));
    assert_eq!(info.team_identifier.as_deref(), Some("TEAMID1234"));
    assert!(info.sandboxed);
    assert_eq!(info.status, Some(65536));
    let keys: Vec<&str> = info.entitlements.iter().map(|(key, _)| key.as_str()).collect();
    assert_eq!(keys, vec!["blob", "com.apple.security.app-sandbox", "count", "groups"]);
    assert_eq!(info.entitlements[0].1, SigningValue::Data(vec![1, 2]));
    assert_eq!(info.entitlements[2].1, SigningValue::Integer(3));
    assert_eq!(
        info.entitlements[3].1,
        SigningValue::Array(vec![SigningValue::String("g1".to_owned()), SigningValue::Unknown("null".to_owned())])
    );
}

#[test]
fn unsigned_metadata_has_no_identifier() {
    let info = SigningInformation::from_json(&JsonValue::Object(vec![member(
        "status",
        JsonValue::Number(JsonNumber::NegInt(-1)),
    )]));
    assert!(!info.is_signed());
    assert_eq!(info.status, None);
    assert!(info.entitlements.is_empty());
    assert!(!info.sandboxed);
}

#[test]
fn static_code_reads_metadata_through_the_bridge() {
    let code = StaticCode::from_handle(1u8);
    let info = code
        .signing_information(|handle| {
            assert_eq!(*handle, 1);
            (Some(Ok(METADATA_TEXT.to_owned())), 0, Ok(None))
        })
        .unwrap();
    assert_eq!(info.team_identifier.as_deref(), Some("TEAMID1234"));
    let missing = code.signing_information(|_| (None, 0, Ok(None)));
    assert_eq!(
        missing,
        Err(SecurityError::InvalidArgument(
            "security_static_code_copy_signing_information returned no object".to_owned()
        ))
    );
}

#[test]
fn core_foundation_values_become_signing_values() {
    assert_eq!(cf_type_to_value(&CfValue::Boolean(false)), code_signing::SigningValue::Boolean(false));
    assert_eq!(cf_type_to_value(&CfValue::Number(Some(-7))), code_signing::SigningValue::Integer(-7));
    assert_eq!(cf_type_to_value(&CfValue::Data(vec![9])), code_signing::SigningValue::Data(vec![9]));
    assert_eq!(
        cf_type_to_value(&CfValue::Other(42)),
        code_signing::SigningValue::Unknown("CFTypeID(42)".to_owned())
    );
}

#[test]
fn signing_queries_report_their_failures() {
    assert_eq!(signing_query_outcome(0, String::new(), true, true), Ok(()));
    assert_eq!(
        signing_query_outcome(0, String::new(), true, false),
        Err(SecurityError::UnexpectedType {
            operation: "SecCodeCopySigningInformation",
            expected: "CFDictionary",
        })
    );
    assert_eq!(
        signing_query_outcome(-25300, "missing".to_owned(), false, false),
        Err(SecurityError::ItemNotFound("missing".to_owned()))
    );
    match signing_query_outcome(0, String::new(), false, false) {
        Err(SecurityError::CoreFoundation(error)) => {
            assert_eq!(error.operation(), "SecCodeCopySigningInformation")
        }
        other => panic!("unexpected {other:?}"),
    }
}

#[test]
fn code_metadata_goes_through_its_static_code() {
    let code = Code::from_handle(4u8);
    let info = code
        .signing_information(
            |handle| {
                assert_eq!(*handle, 4);
                (Some(6), 0, Ok(None))
            },
            |handle| {
                assert_eq!(*handle, 6);
                (Some(Ok(METADATA_TEXT.to_owned())), 0, Ok(None))
            },
        )
        .unwrap();
    assert_eq!(info.identifier.as_deref(), Some("com.example.tool"));
    let failed = code.signing_information(|_| (None, -67062, Ok(None)), |_| panic!("no second call"));
    assert_eq!(failed.unwrap_err().code(), Some(-67062));
    let static_code = code.static_code(|_| (Some(7), 0, Ok(None))).unwrap();
    assert_eq!(*static_code.handle(), 7);
}

#[test]
fn the_last_sandbox_entitlement_decides() {
    let value = JsonValue::Object(vec![member(
        "entitlements",
        JsonValue::Object(vec![
            member("com.apple.security.app-sandbox", JsonValue::Bool(true)),
            member("com.apple.security.app-sandbox", JsonValue::Bool(false)),
        ]),
    )]);
    let info = SigningInformation::from_json(&value);
    assert!(!info.sandboxed);
    assert_eq!(info.entitlements.len(), 1);
    assert_eq!(info.entitlements[0].1, SigningValue::Boolean(false));
}

#[test]
fn the_current_code_owns_the_returned_reference() {
    let code = code_signing::Code::current(|| (0, String::new(), Some(11u8))).unwrap();
    assert_eq!(*code.as_raw(), 11);
    assert_eq!(*code.as_raw(), 11);
    match code_signing::Code::<u8>::current(|| (0, String::new(), None)) {
        Err(SecurityError::CoreFoundation(error)) => assert_eq!(error.operation(), "SecCodeCopySelf"),
        other => panic!("unexpected {other:?}"),
    }
    assert_eq!(
        code_signing::Code::<u8>::current(|| (-25300, "gone".to_owned(), Some(1))).unwrap_err(),
        SecurityError::ItemNotFound("gone".to_owned())
    );
}

#[test]
fn metadata_text_that_is_no_json_is_refused() {
    let code = StaticCode::from_handle(1u8);
    match code.signing_information(|_| (Some(Ok("{".to_owned())), 0, Ok(None))) {
        Err(SecurityError::Serialization(message)) => assert!(message.starts_with("invalid bridge JSON: ")),
        other => panic!("unexpected {other:?}"),
    }
    let info = code.signing_information(|_| (Some(Ok(METADATA_TEXT.to_owned())), 0, Ok(None))).unwrap();
    assert!(info.sandboxed);
    assert_eq!(info.status, Some(65536));
}

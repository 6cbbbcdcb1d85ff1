use security::policy::{Policy, PolicyCall, PolicyIdentifier, PolicyName, PolicyProperties, SslCall};
use security::SecurityError;

#[test]
fn empty_properties_send_no_document() {
    let properties = PolicyProperties::default();
    assert!(properties.is_empty());
    assert_eq!(properties.bridge_json(), Ok(None));
}

#[test]
fn set_properties_are_written_in_declaration_order() {
    let properties = PolicyProperties {
        name: Some(PolicyName::from("example.com")),
        client: Some(true),
        revocation_flags: Some(3),
        team_identifier: Some("TEAMID".to_owned()),
    };
    assert!(!properties.is_empty());
    assert_eq!(
        properties.bridge_json().unwrap().unwrap(),
        r#"{"name":"example.com","client":true,"revocation_flags":3,"team_identifier":"TEAMID"}"#
    );
    let several = PolicyProperties {
        name: Some(PolicyName::Multiple(vec!["a".to_owned(), "b".to_owned()])),
        client: None,
        revocation_flags: Some(0),
        team_identifier: None,
    };
    assert_eq!(
        several.bridge_json().unwrap().unwrap(),
        r#"{"name":["a","b"],"revocation_flags":0}"#
    );
    let only_client = PolicyProperties { client: Some(false), ..PolicyProperties::default() };
    assert_eq!(only_client.bridge_json().unwrap().unwrap(), r#"{"client":false}"#);
}

#[test]
fn policy_names_convert_from_strings() {
    assert_eq!(PolicyName::from("a".to_owned()), PolicyName::Single("a".to_owned()));
    assert_eq!(PolicyName::from("b"), PolicyName::Single("b".to_owned()));
}

#[test]
fn policy_bridge_names_are_stable() {
    assert_eq!(PolicyIdentifier::AppleX509Basic.as_bridge_name(), "apple_x509_basic");
    assert_eq!(PolicyIdentifier::AppleSsl.as_bridge_name(), "apple_ssl");
    assert_eq!(PolicyIdentifier::MacAppStoreReceipt.as_bridge_name(), "mac_app_store_receipt");
    assert_eq!(PolicyIdentifier::AppleIpsecClient.as_bridge_name(), "apple_ipsec_client");
}

#[test]
fn with_properties_hands_the_document_to_the_bridge() {
    let mut handed: Option<PolicyCall> = None;
    let policy: Policy<u8> = Policy::with_properties(
        PolicyIdentifier::AppleSsl,
        &PolicyProperties { client: Some(true), ..PolicyProperties::default() },
        |call| {
            handed = Some(call);
            (Some(5), 0, Ok(None))
        },
    )
    .unwrap();
    assert_eq!(*policy.handle(), 5);
    let call = handed.unwrap();
    assert_eq!(call.identifier, b"apple_ssl\0".to_vec());
    assert_eq!(call.properties, Some(b"{\"client\":true}\0".to_vec()));

    let refused: security::Result<Policy<u8>> = Policy::with_properties(
        PolicyIdentifier::AppleX509Basic,
        &PolicyProperties::default(),
        |call| {
            assert!(call.properties.is_none());
            (None, -67843, Ok(None))
        },
    );
    assert_eq!(refused.unwrap_err().code(), Some(-67843));
}

#[test]
fn a_team_with_a_nul_byte_is_refused() {
    let properties = PolicyProperties {
        team_identifier: Some("a\0b".to_owned()),
        ..PolicyProperties::default()
    };
    let json = properties.bridge_json().unwrap().unwrap();
    assert_eq!(json, r#"{"team_identifier":"a\u0000b"}"#);
    let created: security::Result<Policy<u8>> =
        Policy::with_properties(PolicyIdentifier::AppleEap, &properties, |_| (Some(1), 0, Ok(None)));
    assert!(created.is_ok());
}

#[test]
fn ssl_policies_verify_the_hostname_unless_told_not_to() {
    let mut handed: Option<SslCall> = None;
    let policy: Policy<u8> = Policy::ssl(true, "localhost", |call| {
        handed = Some(call);
        (Some(3), 0, Ok(None))
    })
    .unwrap();
    assert_eq!(*policy.handle(), 3);
    let call = handed.unwrap();
    assert!(call.server);
    assert_eq!(call.hostname, Some(b"localhost\0".to_vec()));
    let any: Policy<u8> = Policy::ssl_any_hostname(false, |call| {
        assert!(!call.server);
        assert_eq!(call.hostname, None);
        (Some(4), 0, Ok(None))
    })
    .unwrap();
    assert_eq!(*any.handle(), 4);
    let refused: security::Result<Policy<u8>> = Policy::ssl(true, "local\0host", |_| panic!("no call"));
    assert_eq!(
        refused.unwrap_err(),
        SecurityError::InvalidArgument(
            "string contains interior NUL byte: nul byte found in provided data at position: 5".to_owned()
        )
    );
}

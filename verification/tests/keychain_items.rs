use security::keychain::{
    AccessControl, AccessControlFlags, AccessControlProtection, Keychain, KeychainCall, KeychainEntry,
    KeychainOptions,
};
use security::SecurityError;

#[test]
fn access_control_protection_base_bridge_names_are_stable() {
    assert_eq!(
        AccessControlProtection::WhenUnlocked.as_bridge_name(),
        "when_unlocked"
    );
    assert_eq!(
        AccessControlProtection::AfterFirstUnlock.as_bridge_name(),
        "after_first_unlock"
    );
}

#[test]
fn access_control_protection_device_only_bridge_names_are_stable() {
    assert_eq!(
        AccessControlProtection::WhenPasscodeSetThisDeviceOnly.as_bridge_name(),
        "when_passcode_set_this_device_only"
    );
    assert_eq!(
        AccessControlProtection::WhenUnlockedThisDeviceOnly.as_bridge_name(),
        "when_unlocked_this_device_only"
    );
    assert_eq!(
        AccessControlProtection::AfterFirstUnlockThisDeviceOnly.as_bridge_name(),
        "after_first_unlock_this_device_only"
    );
}

#[test]
fn access_control_flags_round_trip_through_bits() {
    let flags = AccessControlFlags::user_presence()
        | AccessControlFlags::private_key_usage()
        | AccessControlFlags::application_password();

    assert_eq!(AccessControlFlags::from_bits(flags.bits()), Some(flags));
}

#[test]
fn default_options_protect_items_when_unlocked() {
    let json = KeychainOptions::<()>::default().bridge_json().unwrap();
    let value: serde_json::Value = serde_json::from_str(&json).unwrap();
    assert_eq!(value["accessibility"], "when_unlocked");
    assert_eq!(value["synchronizable"], false);
    assert_eq!(value["data_protection_keychain"], false);
    assert!(value.get("access_group").is_none());
    assert_eq!(
        AccessControlProtection::default(),
        AccessControlProtection::WhenUnlocked
    );
}

#[test]
fn options_serialize_every_selected_control() {
    let options = KeychainOptions::<()>::default()
        .accessibility(AccessControlProtection::WhenUnlockedThisDeviceOnly)
        .access_group("TEAMID.group")
        .synchronizable(true)
        .data_protection_keychain(true);
    let json = options.bridge_json().unwrap();
    let value: serde_json::Value = serde_json::from_str(&json).unwrap();
    assert_eq!(value["accessibility"], "when_unlocked_this_device_only");
    assert_eq!(value["access_group"], "TEAMID.group");
    assert_eq!(value["synchronizable"], true);
    assert_eq!(value["data_protection_keychain"], true);
    assert!(options.access_control_ptr().is_none());
    assert!(options.authentication_context_ptr().is_none());
}

#[test]
fn keychain_entry_new_preserves_account_and_service() {
    let entry = KeychainEntry::new("alice", "security-rs.tests");

    assert_eq!(entry.account(), "alice");
    assert_eq!(entry.service(), "security-rs.tests");
}

#[test]
fn keychain_entry_convenience_constructor_matches_new() {
    let entry = Keychain::entry("alice", "security-rs.tests");

    assert_eq!(entry, KeychainEntry::new("alice", "security-rs.tests"));
}

#[test]
fn options_document_is_exact() {
    let json = KeychainOptions::<()>::default().bridge_json().unwrap();
    assert_eq!(
        json,
        r#"{"accessibility":"when_unlocked","data_protection_keychain":false,"synchronizable":false}"#
    );
    let json = KeychainOptions::<()>::default()
        .access_group("team \"a\"")
        .synchronizable(true)
        .bridge_json()
        .unwrap();
    assert_eq!(
        json,
        r#"{"access_group":"team \"a\"","accessibility":"when_unlocked","data_protection_keychain":false,"synchronizable":true}"#
    );
}

#[test]
fn authentication_context_must_be_retained() {
    let refused = KeychainOptions::<u8>::default().authentication_context(None);
    assert_eq!(
        refused.unwrap_err(),
        SecurityError::InvalidArgument("authentication context must be an LAContext".to_owned())
    );
    let options = KeychainOptions::<u8>::default().authentication_context(Some(3)).unwrap();
    assert_eq!(options.authentication_context_ptr(), Some(&3));
}

#[test]
fn set_hands_checked_arguments_to_the_bridge() {
    let mut handed: Option<KeychainCall<()>> = None;
    let result = Keychain::set("alice", "svc", b"pw", |call| {
        handed = Some(call);
        (0, Ok(None))
    });
    assert_eq!(result, Ok(()));
    let call = handed.unwrap();
    assert_eq!(call.account, b"alice\0".to_vec());
    assert_eq!(call.service, b"svc\0".to_vec());
    assert_eq!(call.secret, Some(&b"pw"[..]));
    assert_eq!(call.secret_length, 2);
    assert_eq!(call.access_control, None);
    assert_eq!(call.authentication_context, None);
    assert_eq!(
        call.options_json,
        b"{\"accessibility\":\"when_unlocked\",\"data_protection_keychain\":false,\"synchronizable\":false}\0".to_vec()
    );
}

#[test]
fn keychain_status_codes_map_to_their_errors() {
    let missing = Keychain::delete("alice", "svc", |_| (-25300, Ok(None)));
    assert_eq!(missing, Err(SecurityError::ItemNotFound("OSStatus -25300".to_owned())));
    let duplicate = KeychainEntry::new("alice", "svc")
        .set(b"pw", |_| (-25299, Ok(Some("already there".to_owned()))));
    assert_eq!(duplicate, Err(SecurityError::DuplicateItem("already there".to_owned())));
}

#[test]
fn interior_nul_is_refused_before_the_bridge_is_called() {
    let result = Keychain::set("al\0ice", "svc", b"pw", |_| panic!("must not be called"));
    assert_eq!(
        result,
        Err(SecurityError::InvalidArgument(
            "string contains interior NUL byte: nul byte found in provided data at position: 2"
                .to_owned()
        ))
    );
    let result = Keychain::delete("alice", "\0", |_| panic!("must not be called"));
    assert_eq!(
        result,
        Err(SecurityError::InvalidArgument(
            "string contains interior NUL byte: nul byte found in provided data at position: 0"
                .to_owned()
        ))
    );
}

#[test]
fn get_returns_the_copied_secret() {
    let secret = Keychain::get("alice", "svc", |call| {
        assert_eq!(call.secret_length, 0);
        assert_eq!(call.secret, None);
        (Some(Ok(b"hunter2".to_vec())), 0, Ok(None))
    })
    .unwrap();
    assert_eq!(secret.as_bytes(), b"hunter2");
    let missing = KeychainEntry::new("alice", "svc").get(|_| (None, 0, Ok(None)));
    match missing {
        Err(SecurityError::InvalidArgument(message)) => {
            assert_eq!(message, "security_keychain_copy_item returned no object")
        }
        _ => panic!("a reply without an object must be refused"),
    }
}

#[test]
fn list_accounts_reads_the_bridge_json() {
    let accounts = Keychain::list_accounts("svc", |call| {
        assert_eq!(call.service, b"svc\0".to_vec());
        (Some(Ok(r#"["alice","bob"]"#.to_owned())), 0, Ok(None))
    })
    .unwrap();
    assert_eq!(accounts, vec!["alice".to_owned(), "bob".to_owned()]);
    let broken = Keychain::list_accounts("svc", |_| (Some(Ok("[1]".to_owned())), 0, Ok(None)));
    match broken {
        Err(SecurityError::Serialization(message)) => {
            assert!(message.starts_with("invalid bridge JSON: "))
        }
        _ => panic!("JSON of the wrong shape must be refused"),
    }
}

#[test]
fn options_hand_their_objects_to_the_bridge() {
    let options = KeychainOptions::<u8>::default()
        .access_control(AccessControl::from_handle(5))
        .authentication_context(Some(6))
        .unwrap();
    let stored = Keychain::set_with_options("alice", "svc", b"token", &options, |call| {
        assert_eq!(call.secret, Some(&b"token"[..]));
        assert_eq!(call.access_control, Some(&5));
        assert_eq!(call.authentication_context, Some(&6));
        (0, Ok(None))
    });
    assert_eq!(stored, Ok(()));
    let read = Keychain::get_with_options("alice", "svc", &options, |call| {
        assert_eq!(call.secret, None);
        assert_eq!(call.access_control, None);
        assert_eq!(call.authentication_context, Some(&6));
        (Some(Ok(b"token".to_vec())), 0, Ok(None))
    });
    assert_eq!(read.unwrap().as_bytes(), b"token");
    let listed = Keychain::list_accounts_with_options("svc", &options, |call| {
        assert_eq!(call.authentication_context, Some(&6));
        (Some(Ok("[]".to_owned())), 0, Ok(None))
    });
    assert_eq!(listed, Ok(Vec::new()));
}

fn set_call(account: &str, service: &str, secret: &[u8]) -> (Vec<u8>, Vec<u8>, Option<Vec<u8>>, isize, Vec<u8>) {
    let mut handed = None;
    Keychain::set(account, service, secret, |call| {
        handed = Some((call.account, call.service, call.secret.map(|s| s.to_vec()), call.secret_length, call.options_json));
        (0, Ok(None))
    })
    .unwrap();
    handed.unwrap()
}

#[test]
fn set_is_set_with_the_default_options() {
    let options = KeychainOptions::<()>::default();
    let mut handed = None;
    Keychain::set_with_options("alice", "svc", b"pw", &options, |call| {
        assert_eq!(call.access_control, None);
        assert_eq!(call.authentication_context, None);
        handed = Some((call.account, call.service, call.secret.map(|s| s.to_vec()), call.secret_length, call.options_json));
        (0, Ok(None))
    })
    .unwrap();
    assert_eq!(handed.unwrap(), set_call("alice", "svc", b"pw"));
    let refused = Keychain::set_with_options("a\0", "svc", b"pw", &options, |_| panic!("no call"));
    assert_eq!(refused, Keychain::set("a\0", "svc", b"pw", |_| panic!("no call")));
}

#[test]
fn an_entry_stores_under_its_account_and_service() {
    let entry = KeychainEntry::new("alice", "svc");
    let mut handed = None;
    entry
        .set(b"pw", |call| {
            handed = Some((call.account, call.service, call.secret.map(|s| s.to_vec()), call.secret_length, call.options_json));
            (0, Ok(None))
        })
        .unwrap();
    assert_eq!(handed.unwrap(), set_call("alice", "svc", b"pw"));
    let entry_error = entry.set(b"pw", |_| (-25299, Ok(None)));
    let keychain_error = Keychain::set("alice", "svc", b"pw", |_| (-25299, Ok(None)));
    assert_eq!(entry_error, keychain_error);
}

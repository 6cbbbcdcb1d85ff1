use security::authorization::{Authorization, AuthorizationOptions};
use security::SecurityError;

#[test]
fn defaults_are_empty() {
    assert!(AuthorizationOptions::defaults().is_empty());
    assert_eq!(AuthorizationOptions::defaults().bits(), 0);
}

#[test]
fn authorization_options_round_trip_through_bits() {
    let options = AuthorizationOptions::interaction_allowed()
        | AuthorizationOptions::extend_rights()
        | AuthorizationOptions::preauthorize();

    assert_eq!(
        AuthorizationOptions::from_bits(options.bits()),
        Some(options)
    );
}

#[test]
fn authorization_options_keep_sparse_bits() {
    let options = AuthorizationOptions::skip_internal_auth() | AuthorizationOptions::no_data();

    assert!(options.contains(AuthorizationOptions::skip_internal_auth()));
    assert!(options.contains(AuthorizationOptions::no_data()));
    assert_eq!(options.bits(), (1 << 9) | (1 << 20));
}

#[test]
fn unknown_authorization_bits_are_refused_or_dropped() {
    let bits = (1 << 9) | (1 << 3) | (1 << 30);
    assert_eq!(AuthorizationOptions::from_bits(bits), None);
    assert_eq!(AuthorizationOptions::from_bits_truncate(bits).bits(), (1 << 9) | (1 << 3));
    assert_eq!(AuthorizationOptions::from_bits_retain(bits).bits(), bits);
}

#[test]
fn removing_options_clears_their_bits() {
    let mut options = AuthorizationOptions::all();
    options.remove(AuthorizationOptions::no_data() | AuthorizationOptions::extend_rights());
    assert!(!options.intersects(AuthorizationOptions::no_data()));
    assert!(!options.contains(AuthorizationOptions::extend_rights()));
    assert!(options.contains(AuthorizationOptions::interaction_allowed()));
}

#[test]
fn authorization_hands_the_option_bits_to_the_bridge() {
    let mut seen = 0;
    let created: security::Result<Authorization<u8>> =
        Authorization::with_options(AuthorizationOptions::preauthorize(), |bits| {
            seen = bits;
            (Some(7u8), 0, Ok(None))
        });
    assert_eq!(seen, 16);
    assert_eq!(*created.unwrap().handle(), 7);

    let refused: security::Result<Authorization<u8>> =
        Authorization::new(|bits| {
            assert_eq!(bits, 0);
            (None, -60005, Ok(Some("denied".to_owned())))
        });
    match refused {
        Err(SecurityError::Status(error)) => {
            assert_eq!(error.status, -60005);
            assert_eq!(error.operation, "security_authorization_create");
            assert_eq!(error.message, "denied");
        }
        _ => panic!("a failed status must become a status error"),
    }
}

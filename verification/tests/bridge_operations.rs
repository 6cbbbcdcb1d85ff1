use security::async_api::{bridge_status_error, flatten_async_result, rights_outcome, AsyncAuthorization, AsyncTrust};
use security::authorization::Authorization;
use security::identity::{Identity, Pkcs12Call};
use security::code::{Code, CodeLookup, Task};
use security::key::{key_block_size, EncryptionAlgorithm, ExternalFormat, KeyType, SignatureAlgorithm};
use security::key_agreement::shared_secret_sizes;
use security::key_derivation::{DerivedKey, KeyDerivation, Pbkdf2Call};
use security::random;
use security::random_bytes::SecureRandom;
use security::secure_transport::{ProtocolVersion, SecureTransportContext};
use security::transform::Transform;
use security::trust::{evaluation_outcome, Trust};
use security::SecurityError;

#[test]
fn random_bytes_come_from_the_fill_call() {
    let bytes = SecureRandom::bytes(4, |buffer, size| {
        assert_eq!(buffer, vec![0, 0, 0, 0]);
        assert_eq!(size, 4);
        (vec![9, 8, 7, 6], 0, Ok(None))
    })
    .unwrap();
    assert_eq!(bytes, vec![9, 8, 7, 6]);
    assert_eq!(SecureRandom::bytes(0, |_, _| panic!("no call for no bytes")), Ok(Vec::new()));
    assert_eq!(
        SecureRandom::bytes(2, |buffer, _| (buffer, -50, Ok(None))).unwrap_err().code(),
        Some(-50)
    );
}

#[test]
fn direct_random_bytes_report_the_framework_message() {
    let failed = random::SecureRandom::bytes(3, |buffer| (buffer, -1, "failure".to_owned()));
    assert_eq!(failed.unwrap_err().to_string(), "SecRandomCopyBytes failed with OSStatus -1: failure");
    let bytes = random::SecureRandom::bytes(2, |_| (vec![1, 2], 0, String::new())).unwrap();
    assert_eq!(bytes, vec![1, 2]);
}

#[test]
fn protocol_names_are_stable() {
    assert_eq!(ProtocolVersion::Ssl2.as_str(), "ssl2");
    assert_eq!(ProtocolVersion::Tls1_0.as_str(), "tls1.0");
    assert_eq!(ProtocolVersion::Dtls1_0.as_str(), "dtls1.0");
    assert_eq!(ProtocolVersion::Tls1_3.as_str(), "tls1.3");
}

#[test]
fn contexts_are_made_by_the_bridge() {
    let client: SecureTransportContext<u8> = SecureTransportContext::client(|| (Some(2), 0, Ok(None))).unwrap();
    assert_eq!(*client.handle(), 2);
    let server: security::Result<SecureTransportContext<u8>> =
        SecureTransportContext::server(|| (None, 0, Ok(None)));
    assert_eq!(
        server.unwrap_err(),
        SecurityError::InvalidArgument("security_secure_transport_create returned no object".to_owned())
    );
}

#[test]
fn key_derivation_checks_its_arguments() {
    let mut handed: Option<Pbkdf2Call> = None;
    let key = KeyDerivation::derive_pbkdf2_sha256("pw", b"salt", 1000, 256, |call| {
        handed = Some(call);
        (Some(1u8), 0, Ok(None))
    })
    .unwrap();
    assert_eq!(*key.handle(), 1);
    let call = handed.unwrap();
    assert_eq!(call.password, b"pw\0".to_vec());
    assert_eq!(call.salt, b"salt");
    assert_eq!((call.salt_length, call.rounds, call.key_size_bits), (4, 1000, 256));
    let refused = KeyDerivation::derive_pbkdf2_sha256::<u8, _>("p\0w", b"", 1, 1, |_| panic!("no call"));
    assert!(matches!(refused, Err(SecurityError::InvalidArgument(_))));
    assert_eq!(
        KeyDerivation::derive_pbkdf2_sha256::<u8, _>("pw", b"", 1, usize::MAX, |_| panic!("no call"))
            .unwrap_err(),
        SecurityError::InvalidArgument("input exceeds bridge size limits".to_owned())
    );
}

#[test]
fn shared_secret_sizes_fit_the_bridge() {
    assert_eq!(shared_secret_sizes(32, 0), Ok((32, 0)));
    assert!(shared_secret_sizes(usize::MAX, 0).is_err());
}

#[test]
fn encoded_text_must_be_utf8() {
    assert_eq!(Transform::encoded_text(b"aGk=".to_vec()), Ok("aGk=".to_owned()));
    match Transform::encoded_text(vec![0xc3]) {
        Err(SecurityError::Serialization(message)) => assert_eq!(
            message,
            "base64 transform returned invalid UTF-8: incomplete utf-8 byte sequence from index 0"
        ),
        other => panic!("unexpected {other:?}"),
    }
}

#[test]
fn key_selectors_have_their_raw_values() {
    assert_eq!(ExternalFormat::Pkcs12.raw(), 12);
    assert_eq!(ExternalFormat::SshV2.raw(), 14);
    assert_eq!(KeyType::EcSecPrimeRandom.raw(), 1);
    assert_eq!(SignatureAlgorithm::EcdsaSignatureDigestX962Sha256.raw(), 4);
    assert_eq!(EncryptionAlgorithm::RsaEncryptionOaepSha512AesGcm.raw(), 11);
    assert_eq!(key_block_size(-1), 0);
    assert_eq!(key_block_size(256), 256);
}

#[test]
fn async_results_are_flattened() {
    assert_eq!(flatten_async_result::<u8>(Ok(Ok(3))), Ok(3));
    assert_eq!(
        flatten_async_result::<u8>(Err("cancelled".to_owned())),
        Err(SecurityError::Serialization("cancelled".to_owned()))
    );
    let inner = SecurityError::InvalidArgument("x".to_owned());
    assert_eq!(flatten_async_result::<u8>(Ok(Err(inner.clone()))), Err(inner));
}

#[test]
fn rights_requests_need_rights() {
    assert_eq!(rights_outcome(0, Ok(Some(5u8)), Ok(None)), Ok(5));
    assert_eq!(
        rights_outcome::<u8>(0, Ok(None), Ok(None)),
        Err(SecurityError::InvalidArgument(
            "security_authorization_copy_rights_async_start returned no authorization rights".to_owned()
        ))
    );
    assert_eq!(rights_outcome::<u8>(-60005, Ok(Some(1)), Ok(None)).unwrap_err().code(), Some(-60005));
    let read_error = SecurityError::Serialization("negative string length from bridge".to_owned());
    assert_eq!(bridge_status_error("op", -1, Err(read_error.clone())), read_error);
}

#[test]
fn evaluations_report_the_bridge_reason() {
    assert_eq!(evaluation_outcome(true, Ok(Some("ignored".to_owned()))), Ok(()));
    assert_eq!(
        evaluation_outcome(false, Ok(None)),
        Err(SecurityError::TrustEvaluationFailed("trust evaluation failed".to_owned()))
    );
    assert_eq!(
        evaluation_outcome(false, Ok(Some("expired".to_owned()))),
        Err(SecurityError::TrustEvaluationFailed("expired".to_owned()))
    );
}

#[test]
fn async_wrappers_borrow_their_objects() {
    let trust = Trust::from_handle(3u8);
    assert_eq!(*AsyncTrust::new(&trust).trust().handle(), 3);
    let authorization = Authorization::from_handle(4u8);
    assert_eq!(*AsyncAuthorization::new(&authorization).authorization().handle(), 4);
}

#[test]
fn tasks_are_made_for_the_current_process() {
    let code: Code<u8> = Code::current(|| (Some(1), 0, Ok(None))).unwrap();
    assert_eq!(code.lookup(), CodeLookup::CurrentProcess);
    let task: Task<u8> = code
        .task(|lookup| {
            assert_eq!(lookup, CodeLookup::CurrentProcess);
            (Some(8), 0, Ok(None))
        })
        .unwrap();
    assert_eq!(*task.handle(), 8);
}

#[test]
fn tasks_are_made_for_code_looked_up_by_audit_token() {
    let code = Code::from_lookup(5u8, CodeLookup::AuditToken);
    let task = code
        .task(|lookup| {
            assert_eq!(lookup, CodeLookup::AuditToken);
            (Some(9), 0, Ok(None))
        })
        .unwrap();
    assert_eq!(*task.handle(), 9);
    let failed = code.task(|_| (None, -4, Ok(None)));
    assert_eq!(failed.unwrap_err().code(), Some(-4));
}

#[test]
fn other_code_has_no_task() {
    let host: Code<u8> = Code::from_handle(2);
    assert_eq!(host.lookup(), CodeLookup::Other);
    match host.task(|_| panic!("no call for code of another lookup")) {
        Err(SecurityError::Unsupported(message)) => {
            assert_eq!(message, "a task needs code looked up by audit token or the current process")
        }
        other => panic!("unexpected {other:?}"),
    }
    let error = SecurityError::Unsupported("x".to_owned());
    assert_eq!(error.to_string(), "unsupported: x");
    assert_eq!(error.code(), None);
}

#[test]
fn random_bytes_have_the_requested_length() {
    let bytes = SecureRandom::bytes(16, |buffer, _| (buffer.iter().map(|_| 7).collect(), 0, Ok(None))).unwrap();
    assert_eq!(bytes.len(), 16);
    let direct = random::SecureRandom::bytes(16, |buffer| (buffer, 0, String::new())).unwrap();
    assert_eq!(direct.len(), 16);
    assert_eq!(random::SecureRandom::bytes(0, |_| panic!("no call for no bytes")), Ok(Vec::new()));
}

#[test]
fn missing_entitlement_has_its_status() {
    assert_eq!(security::error::status::MISSING_ENTITLEMENT, -34018);
    let error = SecurityError::from_status("op", security::error::status::MISSING_ENTITLEMENT, "m".to_owned());
    assert_eq!(error.code(), Some(-34018));
}

#[test]
fn derived_bytes_come_back_as_secret_bytes() {
    let key = DerivedKey::from_handle(3u8);
    let bytes = key
        .bytes(|handle| {
            assert_eq!(*handle, 3);
            (Some(Ok(vec![1, 2, 3])), 0, Ok(None))
        })
        .unwrap();
    assert_eq!(bytes.as_bytes(), &[1, 2, 3]);
    assert_eq!(key.bytes(|_| (None, -50, Ok(None))).unwrap_err().code(), Some(-50));
}

#[test]
fn pkcs12_import_needs_macos_15() {
    let refused: security::Result<Identity<u8>> =
        Identity::import_pkcs12_first(b"p12", "pw", 14, |_| panic!("no call before macOS 15"));
    match refused {
        Err(SecurityError::Unsupported(message)) => assert!(message.starts_with("PKCS#12 import needs macOS 15")),
        other => panic!("unexpected {other:?}"),
    }
    let mut handed: Option<Pkcs12Call> = None;
    let identity: Identity<u8> = Identity::import_pkcs12_first(b"p12", "pw", 15, |call| {
        handed = Some(call);
        (Some(2), 0, Ok(None))
    })
    .unwrap();
    assert_eq!(*identity.handle(), 2);
    let call = handed.unwrap();
    assert_eq!((call.data, call.data_length), (&b"p12"[..], 3));
    assert_eq!(call.password, b"pw\0".to_vec());
    let nul: security::Result<Identity<u8>> = Identity::import_pkcs12_first(b"", "p\0", 15, |_| panic!("no call"));
    assert!(matches!(nul, Err(SecurityError::InvalidArgument(_))));
}

use security::certificate::{pem_body_bytes, pem_to_der, signature_outcome, Certificate, PublicKey};
use security::error::StatusError;
use security::SecurityError;

#[test]
fn pem_bodies_skip_the_boundary_lines() {
    let pem = b"-----BEGIN CERTIFICATE-----\nAQID\r\nBA==\n-----END CERTIFICATE-----\n";
    assert_eq!(pem_body_bytes(pem), b"AQIDBA==".to_vec());
    assert_eq!(pem_to_der(pem), Ok(vec![1, 2, 3, 4]));
}

#[test]
fn a_last_line_keeps_its_carriage_return() {
    assert_eq!(pem_body_bytes(b"ab\r\ncd\r"), b"abcd\r".to_vec());
    assert_eq!(pem_body_bytes(b""), Vec::<u8>::new());
    assert_eq!(pem_body_bytes(b"\n\n-----\nxy"), b"xy".to_vec());
}

#[test]
fn pem_input_must_be_utf8() {
    match pem_to_der(&[0x2d, 0xff]) {
        Err(SecurityError::InvalidArgument(message)) => assert_eq!(
            message,
            "PEM input was not valid UTF-8: invalid utf-8 sequence of 1 bytes from index 1"
        ),
        other => panic!("unexpected {other:?}"),
    }
}

#[test]
fn pem_bodies_must_be_base64() {
    match pem_to_der(b"-----BEGIN X-----\n!!!!\n-----END X-----") {
        Err(SecurityError::InvalidArgument(message)) => {
            assert!(message.starts_with("invalid PEM body: Invalid"))
        }
        other => panic!("unexpected {other:?}"),
    }
}

#[test]
fn signature_checks_report_the_status_first() {
    assert_eq!(signature_outcome("verify", false, 0, Ok(None)), Ok(false));
    assert_eq!(signature_outcome("verify", true, 0, Ok(None)), Ok(true));
    assert_eq!(
        signature_outcome("verify", true, -67808, Ok(Some("bad".to_owned()))),
        Err(SecurityError::Status(StatusError {
            operation: "verify",
            status: -67808,
            message: "bad".to_owned(),
        }))
    );
}

#[test]
fn handles_are_kept() {
    assert_eq!(*Certificate::from_handle(3u8).handle(), 3);
    assert_eq!(*PublicKey::from_handle(4u8).handle(), 4);
}

#[test]
fn boundary_lines_add_nothing_to_the_body() {
    assert_eq!(pem_body_bytes(b"-----BEGIN-----\nrest"), pem_body_bytes(b"rest"));
    assert_eq!(pem_body_bytes(b"line\r\nrest"), b"linerest".to_vec());
    assert_eq!(pem_body_bytes(b"----\nrest"), b"----rest".to_vec());
}

use security::secret::SecretBytes;

#[test]
fn exposes_bytes_and_utf8_views() {
    let secret = SecretBytes::new(vec![0xff, 0x00]);
    assert_eq!(secret.as_bytes(), &[0xff, 0x00]);
    assert_eq!(secret.len(), 2);
    assert!(!secret.is_empty());
    assert!(secret.as_str().is_err());
    let text = SecretBytes::new(b"secret".to_vec());
    assert_eq!(text.as_str().unwrap(), "secret");
}

#[test]
fn an_empty_secret_is_empty() {
    let secret = SecretBytes::new(Vec::new());
    assert!(secret.is_empty());
    assert_eq!(secret.as_str().unwrap(), "");
}

// `SecretBytes` derives `Debug`: a hand-written `Debug` cannot be verified,
// so its form is the derived one, not `SecretBytes(<redacted>)`. What it
// must keep is that no byte of the secret shows.
#[test]
fn debug_output_never_contains_the_secret() {
    let secret = SecretBytes::new(b"hunter2".to_vec());
    let rendered = format!("{secret:?} {secret:#?}");
    assert!(!rendered.contains("hunter2"));
    assert!(!rendered.contains("104"));
}

#[test]
fn secrets_are_byte_slices() {
    let secret = SecretBytes::new(vec![1, 2, 3]);
    let bytes: &[u8] = secret.as_ref();
    assert_eq!(bytes, &[1, 2, 3]);
}

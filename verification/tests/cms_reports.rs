use security::cms::{
    chain_mode_outcome, signer_count, CmsCertificateChainMode, CmsCertificateVerification,
    CmsDigestAlgorithm, CmsSignedAttributes, CmsSignerStatus, CmsSignerStatusReport,
};
use security::json::{JsonNumber, JsonValue};
use security::SecurityError;

fn report_document(status: u64, evaluated: bool, code: Option<i64>) -> JsonValue {
    let mut members = vec![
        ("signerStatus".to_owned(), JsonValue::Number(JsonNumber::PosInt(status))),
        ("trustEvaluated".to_owned(), JsonValue::Bool(evaluated)),
    ];
    if let Some(code) = code {
        let number = if code < 0 { JsonNumber::NegInt(code) } else { JsonNumber::PosInt(code as u64) };
        members.push(("certVerifyResultCode".to_owned(), JsonValue::Number(number)));
    }
    JsonValue::Object(members)
}

#[test]
fn chain_modes_round_trip_through_raw_values() {
    for raw in 0..=4u32 {
        assert_eq!(CmsCertificateChainMode::from_raw(raw).unwrap().raw(), raw);
    }
    assert_eq!(CmsCertificateChainMode::from_raw(0).unwrap(), CmsCertificateChainMode::NoCertificates);
    assert_eq!(
        CmsCertificateChainMode::from_raw(5),
        Err(SecurityError::InvalidArgument("unexpected CMS certificate chain mode: 5".to_owned()))
    );
    assert_eq!(chain_mode_outcome(0, 2, Ok(None)), Ok(CmsCertificateChainMode::Chain));
    assert_eq!(chain_mode_outcome(-50, 2, Ok(None)).unwrap_err().code(), Some(-50));
}

#[test]
fn signer_statuses_keep_unknown_raw_values() {
    assert_eq!(CmsSignerStatus::from_raw(1), CmsSignerStatus::Valid);
    assert_eq!(CmsSignerStatus::from_raw(77), CmsSignerStatus::Unknown(77));
    assert_eq!(CmsSignerStatus::from_raw(77).raw(), 77);
    assert_eq!(CmsSignerStatus::InvalidIndex.raw(), 5);
}

#[test]
fn digest_names_are_stable() {
    assert_eq!(CmsDigestAlgorithm::Sha1.as_bridge_name(), "sha1");
    assert_eq!(CmsDigestAlgorithm::Sha256.as_bridge_name(), "sha256");
}

#[test]
fn signed_attribute_flags_combine() {
    let flags = CmsSignedAttributes::signing_time() | CmsSignedAttributes::smime_capabilities();
    assert!(flags.contains(CmsSignedAttributes::signing_time()));
    assert_eq!(CmsSignedAttributes::from_bits(flags.bits()), Some(flags));
    assert!(CmsSignedAttributes::none().is_empty());
}

#[test]
fn signer_reports_are_read_from_the_document() {
    let report: CmsSignerStatusReport<u8> =
        CmsSignerStatusReport::from_json(&report_document(1, true, Some(0)), Some(9)).unwrap();
    assert!(report.is_verified());
    assert_eq!(report.trust, Some(9));
    let failed: CmsSignerStatusReport<u8> =
        CmsSignerStatusReport::from_json(&report_document(1, true, Some(-67808)), None).unwrap();
    assert_eq!(failed.certificate_verification, CmsCertificateVerification::Evaluated(-67808));
    assert!(!failed.is_verified());
    let unevaluated: CmsSignerStatusReport<u8> =
        CmsSignerStatusReport::from_json(&report_document(3, false, None), None).unwrap();
    assert_eq!(unevaluated.signer_status, CmsSignerStatus::InvalidSignature);
    assert_eq!(unevaluated.certificate_verification, CmsCertificateVerification::NotEvaluated);
    let incomplete = CmsSignerStatusReport::<u8>::from_json(&report_document(1, true, None), None);
    assert!(matches!(
        incomplete,
        Err(SecurityError::UnexpectedType {
            operation: "security_cms_decoder_copy_signer_status",
            expected: "signer status JSON object",
        })
    ));
}

#[test]
fn signer_counts_refuse_negative_values() {
    assert_eq!(signer_count(0, 2, Ok(None)), Ok(2));
    assert_eq!(
        signer_count(0, -1, Ok(None)),
        Err(SecurityError::Serialization("negative signer count from bridge".to_owned()))
    );
}

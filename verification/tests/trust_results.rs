use security::trust::TrustResultType;
use security::SecurityError;

#[test]
fn trust_result_type_from_raw_maps_known_values() {
    assert_eq!(
        TrustResultType::from_raw(0).unwrap(),
        TrustResultType::Invalid
    );
    assert_eq!(
        TrustResultType::from_raw(7).unwrap(),
        TrustResultType::OtherError
    );
}

#[test]
fn trust_result_type_from_raw_rejects_unknown_values() {
    assert_eq!(
        TrustResultType::from_raw(99).unwrap_err(),
        SecurityError::InvalidArgument("unexpected trust result type: 99".to_owned())
    );
}

#[test]
fn trust_result_types_round_trip_through_raw_values() {
    for raw in 0..=7u32 {
        assert_eq!(TrustResultType::from_raw(raw).unwrap().raw(), raw);
    }
}

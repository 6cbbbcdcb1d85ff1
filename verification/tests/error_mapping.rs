use security::error::{status, CFError, StatusError};
use security::SecurityError;

#[test]
fn keychain_codes_get_their_own_variants() {
    assert_eq!(
        SecurityError::from_status("op", status::ITEM_NOT_FOUND, "m".to_owned()),
        SecurityError::ItemNotFound("m".to_owned())
    );
    assert_eq!(
        SecurityError::from_status("op", status::DUPLICATE_ITEM, "m".to_owned()),
        SecurityError::DuplicateItem("m".to_owned())
    );
    assert_eq!(
        SecurityError::from_status("op", status::INTERACTION_NOT_ALLOWED, "m".to_owned()),
        SecurityError::InteractionNotAllowed("m".to_owned())
    );
    assert_eq!(
        SecurityError::from_status("op", -4, "m".to_owned()),
        SecurityError::Status(StatusError { operation: "op", status: -4, message: "m".to_owned() })
    );
}

#[test]
fn errors_report_the_code_they_came_from() {
    for code in [status::ITEM_NOT_FOUND, status::DUPLICATE_ITEM, status::INTERACTION_NOT_ALLOWED, -1, 7] {
        assert_eq!(SecurityError::from_status("op", code, String::new()).code(), Some(code));
    }
    assert_eq!(SecurityError::InvalidArgument("x".to_owned()).code(), None);
}

#[test]
fn errors_describe_themselves() {
    assert_eq!(SecurityError::InvalidArgument("x".to_owned()).to_string(), "invalid argument: x");
    assert_eq!(SecurityError::ItemNotFound("x".to_owned()).to_string(), "item not found: x");
    assert_eq!(SecurityError::DuplicateItem("x".to_owned()).to_string(), "duplicate item: x");
    assert_eq!(
        SecurityError::InteractionNotAllowed("x".to_owned()).to_string(),
        "interaction not allowed: x"
    );
    assert_eq!(
        SecurityError::TrustEvaluationFailed("x".to_owned()).to_string(),
        "trust evaluation failed: x"
    );
    assert_eq!(
        SecurityError::UnexpectedType { operation: "op", expected: "CFString" }.to_string(),
        "op returned an unexpected value (expected CFString)"
    );
    assert_eq!(SecurityError::Serialization("x".to_owned()).to_string(), "serialization error: x");
    assert_eq!(
        SecurityError::CoreFoundation(CFError::new("CFDataCreate")).to_string(),
        "CFDataCreate returned a null Core Foundation/Core Graphics pointer"
    );
    assert_eq!(
        SecurityError::Status(StatusError { operation: "op", status: -25293, message: "denied".to_owned() })
            .to_string(),
        "op failed with OSStatus -25293: denied"
    );
}

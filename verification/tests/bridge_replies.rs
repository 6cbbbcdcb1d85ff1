use security::bridge::{
    collect_handles, count_or_zero, cstring, data_buffer_size, finish_data, finish_string, len_to_isize,
    optional_handle, required_handle, status_result, status_value, string_buffer_size,
    string_list_from_json,
};
use security::error::StatusError;
use security::SecurityError;

#[test]
fn cstring_appends_a_terminator() {
    assert_eq!(cstring("abc").unwrap(), b"abc\0".to_vec());
    assert_eq!(cstring("").unwrap(), b"\0".to_vec());
    assert_eq!(cstring("é").unwrap(), vec![0xc3, 0xa9, 0]);
}

#[test]
fn cstring_names_the_first_nul_byte() {
    assert_eq!(
        cstring("a\0b\0"),
        Err(SecurityError::InvalidArgument(
            "string contains interior NUL byte: nul byte found in provided data at position: 1"
                .to_owned()
        ))
    );
}

#[test]
fn lengths_fit_the_bridge_size() {
    assert_eq!(len_to_isize(0), Ok(0));
    assert_eq!(len_to_isize(isize::MAX as usize), Ok(isize::MAX));
    assert_eq!(
        len_to_isize(usize::MAX),
        Err(SecurityError::InvalidArgument("input exceeds bridge size limits".to_owned()))
    );
}

#[test]
fn status_results_follow_the_status() {
    assert_eq!(status_result("op", 0, Ok(Some("ignored".to_owned()))), Ok(()));
    assert_eq!(
        status_result("op", -50, Ok(None)),
        Err(SecurityError::Status(StatusError {
            operation: "op",
            status: -50,
            message: "OSStatus -50".to_owned(),
        }))
    );
    assert_eq!(
        status_result("op", -25308, Ok(Some("locked".to_owned()))),
        Err(SecurityError::InteractionNotAllowed("locked".to_owned()))
    );
    let read_error = SecurityError::Serialization("negative string length from bridge".to_owned());
    assert_eq!(status_result("op", -1, Err(read_error.clone())), Err(read_error));
    assert_eq!(status_value("op", 0, Ok(None), 9u8), Ok(9));
}

#[test]
fn required_handles_explain_a_missing_object() {
    assert_eq!(required_handle("op", Some(4u8), -1, Ok(None)), Ok(4));
    assert_eq!(
        required_handle::<u8>("op", None, 0, Ok(None)),
        Err(SecurityError::InvalidArgument("op returned no object".to_owned()))
    );
    assert_eq!(
        required_handle::<u8>("op", None, -25300, Ok(Some("gone".to_owned()))),
        Err(SecurityError::ItemNotFound("gone".to_owned()))
    );
    assert_eq!(optional_handle::<u8>("op", None, 0, Ok(None)), Ok(None));
    assert_eq!(optional_handle("op", Some(1u8), 0, Ok(None)), Ok(Some(1)));
}

#[test]
fn negative_counts_read_as_zero() {
    assert_eq!(count_or_zero(-3), 0);
    assert_eq!(count_or_zero(12), 12);
}

#[test]
fn string_buffers_leave_room_for_the_terminator() {
    assert_eq!(string_buffer_size(0), Ok(None));
    assert_eq!(string_buffer_size(5), Ok(Some(6)));
    assert_eq!(
        string_buffer_size(-1),
        Err(SecurityError::Serialization("negative string length from bridge".to_owned()))
    );
    assert_eq!(data_buffer_size(3), Ok(Some(3)));
    assert_eq!(
        data_buffer_size(-2),
        Err(SecurityError::Serialization("negative data length from bridge".to_owned()))
    );
}

#[test]
fn copied_strings_are_cut_and_checked() {
    assert_eq!(finish_string(b"hello\0".to_vec(), 5), Ok("hello".to_owned()));
    assert_eq!(
        finish_string(b"x".to_vec(), -1),
        Err(SecurityError::Serialization("negative string write count".to_owned()))
    );
    match finish_string(vec![0xff, 0x41], 2) {
        Err(SecurityError::Serialization(message)) => assert_eq!(
            message,
            "bridge string was not UTF-8: invalid utf-8 sequence of 1 bytes from index 0"
        ),
        other => panic!("unexpected {other:?}"),
    }
    assert_eq!(finish_data(vec![1, 2, 3, 4], 2), Ok(vec![1, 2]));
    assert_eq!(finish_data(vec![1, 2], 9), Ok(vec![1, 2]));
}

#[test]
fn string_lists_are_read_from_json() {
    assert_eq!(
        string_list_from_json(r#"["a", "b\u00e9"]"#),
        Ok(vec!["a".to_owned(), "bé".to_owned()])
    );
    match string_list_from_json("{}") {
        Err(SecurityError::Serialization(message)) => {
            assert!(message.starts_with("invalid bridge JSON: invalid type: map"))
        }
        other => panic!("unexpected {other:?}"),
    }
}

#[test]
fn arrays_are_collected_in_order_until_an_item_fails() {
    let all = collect_handles("copy", 3, |index| (Some(index * 10), 0, Ok(None)));
    assert_eq!(all, Ok(vec![0, 10, 20]));
    let none = collect_handles::<isize, _>("copy", -4, |_| panic!("no item to copy"));
    assert_eq!(none, Ok(Vec::new()));
    let failed = collect_handles("copy", 3, |index| {
        if index == 1 { (None, -50, Ok(Some("gone".to_owned()))) } else { (Some(index), 0, Ok(None)) }
    });
    assert_eq!(failed.unwrap_err().code(), Some(-50));
}

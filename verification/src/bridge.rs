//! Checks on the arguments handed to the Security.framework bridge and the
//! decoding of what the bridge hands back: status codes, error texts, the
//! presence of returned objects and the strings and data it copies out.

use vstd::prelude::*;
use vstd::string::StringSliceAdditionalSpecFns;
use vstd::utf8::{decode_utf8, valid_utf8};

use crate::error::{spec_from_status, OsStatus, Result, SecurityError};
use crate::text::{spec_decimal, spec_signed_decimal};

verus! {

/// The text of the error for a string that holds a NUL byte at `position`.
pub open spec fn nul_error_text(position: nat) -> Seq<char> {
    "string contains interior NUL byte: nul byte found in provided data at position: "@
        + spec_decimal(position)
}

/// `position` is the first NUL byte of `bytes`.
pub open spec fn is_first_nul(bytes: Seq<u8>, position: int) -> bool {
    &&& 0 <= position < bytes.len()
    &&& bytes[position] == 0
    &&& forall|i: int| 0 <= i < position ==> bytes[i] != 0
}

/// `result` is what converting `value` to a C string gives: the bytes with a
/// NUL terminator, or the error that names the first NUL byte inside.
pub open spec fn cstring_outcome(value: Seq<u8>, result: Result<Vec<u8>>) -> bool {
    match result {
        Ok(bytes) => {
            &&& !value.contains(0u8)
            &&& bytes@ == value.push(0u8)
        },
        Err(error) => exists|position: int|
            {
                &&& is_first_nul(value, position)
                &&& error matches SecurityError::InvalidArgument(message)
                &&& message@ == nul_error_text(position as nat)
            },
    }
}

/// The NUL-terminated C string for `value`, refused when `value` holds a NUL byte.
pub fn cstring(value: &str) -> (result: Result<Vec<u8>>)
    ensures
        cstring_outcome(value.spec_bytes(), result),
{
    let bytes = value.as_bytes();
    let mut out: Vec<u8> = Vec::new();
    let mut i: usize = 0;
    while i < bytes.len()
        invariant
            bytes@ == value.spec_bytes(),
            i <= bytes@.len(),
            out@ == bytes@.subrange(0, i as int),
            forall|j: int| 0 <= j < i ==> bytes@[j] != 0,
        decreases bytes@.len() - i,
    {
        if bytes[i] == 0 {
            let message = crate::text::with_decimal(
                "string contains interior NUL byte: nul byte found in provided data at position: ",
                i as u64,
            );
            proof {
                assert(is_first_nul(value.spec_bytes(), i as int));
            }
            return Err(SecurityError::InvalidArgument(message));
        }
        out.push(bytes[i]);
        i = i + 1;
        assert(out@ =~= bytes@.subrange(0, i as int));
    }
    assert(out@ =~= bytes@);
    proof {
        if bytes@.contains(0u8) {
            let j = choose|j: int| 0 <= j < bytes@.len() && bytes@[j] == 0u8;
            assert(bytes@[j] != 0);
        }
    }
    out.push(0);
    Ok(out)
}

/// A length as the bridge's signed size type, refused when it does not fit.
pub fn len_to_isize(length: usize) -> (result: Result<isize>)
    ensures
        match result {
            Ok(size) => length <= isize::MAX && size == length,
            Err(error) => length > isize::MAX && (error matches SecurityError::InvalidArgument(
                message,
            ) && message@ == "input exceeds bridge size limits"@),
        },
{
    if length <= isize::MAX as usize {
        Ok(length as isize)
    } else {
        Err(SecurityError::InvalidArgument("input exceeds bridge size limits".to_string()))
    }
}

/// The message of the error for a failed status: the bridge's own text when it
/// gave one, `OSStatus <code>` otherwise.
pub open spec fn status_message(status: OsStatus, text: Option<String>) -> Seq<char> {
    match text {
        Some(message) => message@,
        None => "OSStatus "@ + spec_signed_decimal(status as int),
    }
}

/// `error` is the error that a failed status with the given error text maps to.
pub open spec fn is_status_error(
    error: SecurityError,
    operation: &'static str,
    status: OsStatus,
    text: Option<String>,
) -> bool {
    exists|message: String|
        message@ == status_message(status, text) && error == spec_from_status(
            operation,
            status,
            message,
        )
}

/// The error for a status code the bridge reported, with the error text that
/// reading the bridge's error object gave (or the failure of that reading).
pub fn status_error(
    operation: &'static str,
    status: OsStatus,
    error_text: Result<Option<String>>,
) -> (result: Result<SecurityError>)
    ensures
        match error_text {
            Ok(text) => result matches Ok(error) && is_status_error(error, operation, status, text),
            Err(read_error) => result == Err::<SecurityError, SecurityError>(read_error),
        },
{
    match error_text {
        Ok(text) => {
            let message = match text {
                Some(message) => message,
                None => crate::text::with_signed_decimal("OSStatus ", status as i64),
            };
            let ghost kept = message;
            assert(kept@ == status_message(status, text));
            let error = SecurityError::from_status(operation, status, message);
            assert(error == spec_from_status(operation, status, kept));
            assert(is_status_error(error, operation, status, text));
            Ok(error)
        },
        Err(read_error) => Err(read_error),
    }
}

/// `result` is what a call that reported `status` comes to: `Ok(())` for a
/// zero status, the status's error otherwise (or the failure to read the
/// error's text).
pub open spec fn status_outcome(
    result: Result<()>,
    operation: &'static str,
    status: OsStatus,
    error_text: Result<Option<String>>,
) -> bool {
    &&& status == 0 ==> result == Ok::<(), SecurityError>(())
    &&& status != 0 ==> match error_text {
        Ok(text) => result matches Err(error) && is_status_error(error, operation, status, text),
        Err(read_error) => result == Err::<(), SecurityError>(read_error),
    }
}

/// `Ok(())` for a zero status, the status's error otherwise.
pub fn status_result(operation: &'static str, status: OsStatus, error_text: Result<Option<String>>) -> (result: Result<()>)
    ensures
        status_outcome(result, operation, status, error_text),
{
    if status == 0 {
        Ok(())
    } else {
        match status_error(operation, status, error_text) {
            Ok(error) => Err(error),
            Err(read_error) => Err(read_error),
        }
    }
}

/// The text of the error for a call that returned no object and no status.
pub open spec fn no_object_text(operation: &'static str) -> Seq<char> {
    operation@ + " returned no object"@
}

/// What a bridge call that creates an object hands back: the object, if any,
/// the status it reported and the text of its error object.
pub type CreateReply<H> = (Option<H>, OsStatus, Result<Option<String>>);

/// `result` is what a call that returned `handle` and `status` comes to: the
/// object when there is one; otherwise the error the status names, or
/// `InvalidArgument` when the status is zero.
pub open spec fn handle_outcome<H>(
    result: Result<H>,
    operation: &'static str,
    handle: Option<H>,
    status: OsStatus,
    error_text: Result<Option<String>>,
) -> bool {
    match handle {
        Some(h) => result == Ok::<H, SecurityError>(h),
        None => if status != 0 {
            match error_text {
                Ok(text) => result matches Err(error) && is_status_error(
                    error,
                    operation,
                    status,
                    text,
                ),
                Err(read_error) => result == Err::<H, SecurityError>(read_error),
            }
        } else {
            result matches Err(error) && error matches SecurityError::InvalidArgument(message)
                && message@ == no_object_text(operation)
        },
    }
}

/// `result` is what a reply that should carry an object comes to: the value
/// read from the object (or the failure to read it); without an object, the
/// error its status names, or `InvalidArgument` when the status is zero.
pub open spec fn object_outcome<T, V>(
    result: Result<T>,
    operation: &'static str,
    object: Option<Result<V>>,
    status: OsStatus,
    error_text: Result<Option<String>>,
    holds: spec_fn(T, V) -> bool,
) -> bool {
    match object {
        Some(Ok(value)) => result matches Ok(made) && holds(made, value),
        Some(Err(read_error)) => result matches Err(error) && error == read_error,
        None => if status != 0 {
            match error_text {
                Ok(text) => result matches Err(error) && is_status_error(
                    error,
                    operation,
                    status,
                    text,
                ),
                Err(read_error) => result matches Err(error) && error == read_error,
            }
        } else {
            result matches Err(error) && error matches SecurityError::InvalidArgument(message)
                && message@ == no_object_text(operation)
        },
    }
}

/// The object a bridge call returned; when it returned none, the error its
/// status names, or `InvalidArgument` when the status is zero.
pub fn required_handle<H>(
    operation: &'static str,
    handle: Option<H>,
    status: OsStatus,
    error_text: Result<Option<String>>,
) -> (result: Result<H>)
    ensures
        handle_outcome(result, operation, handle, status, error_text),
{
    match handle {
        Some(h) => Ok(h),
        None => {
            if status != 0 {
                match status_error(operation, status, error_text) {
                    Ok(error) => Err(error),
                    Err(read_error) => Err(read_error),
                }
            } else {
                Err(SecurityError::InvalidArgument(crate::text::joined(operation, " returned no object")))
            }
        },
    }
}

/// The value a bridge call returned beside a status: the value for a zero
/// status, the status's error otherwise.
pub fn status_value<T>(
    operation: &'static str,
    status: OsStatus,
    error_text: Result<Option<String>>,
    value: T,
) -> (result: Result<T>)
    ensures
        status == 0 ==> result == Ok::<T, SecurityError>(value),
        status != 0 ==> match error_text {
            Ok(text) => result matches Err(error) && is_status_error(error, operation, status, text),
            Err(read_error) => result == Err::<T, SecurityError>(read_error),
        },
{
    if status == 0 {
        Ok(value)
    } else {
        match status_error(operation, status, error_text) {
            Ok(error) => Err(error),
            Err(read_error) => Err(read_error),
        }
    }
}

/// The object of a bridge call that may return none: `None` when it returned
/// no object and a zero status, otherwise as `required_handle` decides.
pub fn optional_handle<H>(
    operation: &'static str,
    handle: Option<H>,
    status: OsStatus,
    error_text: Result<Option<String>>,
) -> (result: Result<Option<H>>)
    ensures
        match handle {
            Some(h) => result == Ok::<Option<H>, SecurityError>(Some(h)),
            None => if status == 0 {
                result == Ok::<Option<H>, SecurityError>(None)
            } else {
                match error_text {
                    Ok(text) => result matches Err(error) && is_status_error(
                        error,
                        operation,
                        status,
                        text,
                    ),
                    Err(read_error) => result == Err::<Option<H>, SecurityError>(read_error),
                }
            },
        },
{
    if handle.is_none() && status == 0 {
        Ok(None)
    } else {
        match required_handle(operation, handle, status, error_text) {
            Ok(h) => Ok(Some(h)),
            Err(error) => Err(error),
        }
    }
}

/// A count the bridge reported, with a negative count read as zero.
pub fn count_or_zero(count: isize) -> (result: usize)
    ensures
        count >= 0 ==> result == count,
        count < 0 ==> result == 0,
{
    if count >= 0 {
        count as usize
    } else {
        0
    }
}

/// `item` is the object that `copy_item`, handed index `k`, returned.
pub open spec fn copied_item<H, I: Fn(isize) -> CreateReply<H>>(copy_item: I, k: int, item: H) -> bool {
    exists|reply: CreateReply<H>| copy_item.ensures((k as isize,), reply) && reply.0 == Some(item)
}

/// `error` is what `copy_item`, handed index `k`, made the collection fail with.
pub open spec fn failed_item<H, I: Fn(isize) -> CreateReply<H>>(
    copy_item: I,
    operation: &'static str,
    k: int,
    error: SecurityError,
) -> bool {
    exists|reply: CreateReply<H>|
        copy_item.ensures((k as isize,), reply) && handle_outcome(
            Err(error),
            operation,
            reply.0,
            reply.1,
            reply.2,
        )
}

/// The objects of a bridge array of `count` items (a negative count read as
/// none), each copied out by `copy_item` with its index, in order; the first
/// item the bridge cannot hand out ends the collection with its error.
pub fn collect_handles<H, I>(operation: &'static str, count: isize, copy_item: I) -> (result: Result<
    Vec<H>,
>)
    where
        I: Fn(isize) -> CreateReply<H>,
    requires
        forall|index: isize| copy_item.requires((index,)),
    ensures
        match result {
            Ok(items) => {
                &&& items@.len() == (if count >= 0 {
                    count as int
                } else {
                    0
                })
                &&& forall|k: int|
                    0 <= k < items@.len() ==> copied_item(copy_item, k, #[trigger] items@[k])
            },
            Err(error) => exists|k: int|
                0 <= k < count && #[trigger] failed_item(copy_item, operation, k, error),
        },
{
    let n = count_or_zero(count);
    let mut items: Vec<H> = Vec::new();
    let mut i: usize = 0;
    while i < n
        invariant
            i <= n,
            n as int == (if count >= 0 {
                count as int
            } else {
                0
            }),
            items@.len() == i,
            forall|index: isize| copy_item.requires((index,)),
            forall|k: int| 0 <= k < i ==> copied_item(copy_item, k, #[trigger] items@[k]),
        decreases n - i,
    {
        let reply = copy_item(i as isize);
        let ghost kept = reply;
        let (handle, status, error_text) = reply;
        match required_handle(operation, handle, status, error_text) {
            Ok(item) => {
                let ghost before = items@;
                items.push(item);
                assert(copied_item(copy_item, i as int, items@[i as int]));
                assert forall|k: int| 0 <= k < i + 1 implies copied_item(
                    copy_item,
                    k,
                    #[trigger] items@[k],
                ) by {
                    if k < i {
                        assert(items@[k] == before[k]);
                    }
                }
            },
            Err(error) => {
                assert(failed_item(copy_item, operation, i as int, error));
                return Err(error);
            },
        }
        i = i + 1;
    }
    Ok(items)
}

/// Decodes UTF-8 bytes into a `String` (`String::from_utf8`); a failure
/// carries the text of the decoding error.
#[verifier::external_body]
pub(crate) fn utf8_string(bytes: Vec<u8>) -> (result: std::result::Result<String, String>)
    ensures
        match result {
            Ok(text) => valid_utf8(bytes@) && text@ == decode_utf8(bytes@),
            Err(message) => !valid_utf8(bytes@) && message@ == utf8_error_text(bytes@),
        },
{
    String::from_utf8(bytes).map_err(|error| error.to_string())
}

/// The text with which `String::from_utf8` describes why `bytes` are not UTF-8.
pub uninterp spec fn utf8_error_text(bytes: Seq<u8>) -> Seq<char>;

/// The size of the buffer into which the bridge copies a string of `length`
/// bytes: `None` for an empty string (nothing is copied), the length plus room
/// for the NUL terminator otherwise.
pub fn string_buffer_size(length: isize) -> (result: Result<Option<usize>>)
    ensures
        match result {
            Ok(None) => length == 0,
            Ok(Some(size)) => 0 < length < isize::MAX && size == length + 1,
            Err(SecurityError::Serialization(message)) => length < 0 && message@
                == "negative string length from bridge"@,
            Err(SecurityError::InvalidArgument(message)) => length == isize::MAX && message@
                == "input exceeds bridge size limits"@,
            Err(_) => false,
        },
{
    if length < 0 {
        return Err(SecurityError::Serialization("negative string length from bridge".to_string()));
    }
    if length == 0 {
        return Ok(None);
    }
    let size = length as usize + 1;
    match len_to_isize(size) {
        Ok(_) => Ok(Some(size)),
        Err(error) => Err(error),
    }
}

/// The string the bridge copied into `buffer`, of which it reports `written`
/// bytes; the bytes must be UTF-8.
pub fn finish_string(buffer: Vec<u8>, written: isize) -> (result: Result<String>)
    ensures
        written < 0 ==> (result matches Err(SecurityError::Serialization(message)) && message@
            == "negative string write count"@),
        written >= 0 ==> {
            let kept = if written <= buffer@.len() {
                buffer@.subrange(0, written as int)
            } else {
                buffer@
            };
            match result {
                Ok(text) => valid_utf8(kept) && text@ == decode_utf8(kept),
                Err(SecurityError::Serialization(message)) => !valid_utf8(kept) && message@
                    == "bridge string was not UTF-8: "@ + utf8_error_text(kept),
                Err(_) => false,
            }
        },
{
    if written < 0 {
        return Err(SecurityError::Serialization("negative string write count".to_string()));
    }
    let mut buffer = buffer;
    buffer.truncate(written as usize);
    match utf8_string(buffer) {
        Ok(text) => Ok(text),
        Err(message) => Err(
            SecurityError::Serialization(
                crate::text::joined("bridge string was not UTF-8: ", message.as_str()),
            ),
        ),
    }
}

/// The size of the buffer into which the bridge copies `length` bytes of data:
/// `None` when there is nothing to copy.
pub fn data_buffer_size(length: isize) -> (result: Result<Option<usize>>)
    ensures
        match result {
            Ok(None) => length == 0,
            Ok(Some(size)) => length > 0 && size == length,
            Err(SecurityError::Serialization(message)) => length < 0 && message@
                == "negative data length from bridge"@,
            Err(_) => false,
        },
{
    if length < 0 {
        Err(SecurityError::Serialization("negative data length from bridge".to_string()))
    } else if length == 0 {
        Ok(None)
    } else {
        Ok(Some(length as usize))
    }
}

/// The data the bridge copied into `buffer`, of which it reports `written` bytes.
pub fn finish_data(buffer: Vec<u8>, written: isize) -> (result: Result<Vec<u8>>)
    ensures
        written < 0 ==> (result matches Err(SecurityError::Serialization(message)) && message@
            == "negative data write count"@),
        written >= 0 ==> (result matches Ok(data) && data@ == if written <= buffer@.len() {
            buffer@.subrange(0, written as int)
        } else {
            buffer@
        }),
{
    if written < 0 {
        return Err(SecurityError::Serialization("negative data write count".to_string()));
    }
    let mut buffer = buffer;
    buffer.truncate(written as usize);
    Ok(buffer)
}

/// What `serde_json::from_str` makes of JSON text read as a list of strings:
/// the strings, or the text of its error.
pub uninterp spec fn serde_json_string_list(text: Seq<char>) -> std::result::Result<
    Seq<Seq<char>>,
    Seq<char>,
>;

/// The characters of each string of a list.
pub open spec fn string_texts(items: Seq<String>) -> Seq<Seq<char>> {
    items.map_values(|item: String| item@)
}

/// Reads `json` as a list of strings with `serde_json::from_str`; a failure
/// carries the text of `serde_json::Error`.
#[verifier::external_body]
fn parse_string_list(json: &str) -> (result: std::result::Result<Vec<String>, String>)
    ensures
        match serde_json_string_list(json@) {
            Ok(items) => result matches Ok(list) && string_texts(list@) == items,
            Err(message) => result matches Err(text) && text@ == message,
        },
{
    serde_json::from_str::<Vec<String>>(json).map_err(|error| error.to_string())
}

/// The text of the error for bridge JSON that could not be read.
pub open spec fn json_read_error_text(message: Seq<char>) -> Seq<char> {
    "invalid bridge JSON: "@ + message
}

/// The list of strings that the bridge's JSON text holds.
pub fn string_list_from_json(json: &str) -> (result: Result<Vec<String>>)
    ensures
        match serde_json_string_list(json@) {
            Ok(items) => result matches Ok(list) && string_texts(list@) == items,
            Err(message) => result matches Err(SecurityError::Serialization(text)) && text@
                == json_read_error_text(message),
        },
{
    match parse_string_list(json) {
        Ok(list) => Ok(list),
        Err(message) => Err(
            SecurityError::Serialization(
                crate::text::joined("invalid bridge JSON: ", message.as_str()),
            ),
        ),
    }
}

} // verus!

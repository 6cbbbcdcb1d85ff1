//! Building the diagnostic texts that the bindings put into their errors.

use vstd::prelude::*;

verus! {

/// The character of a decimal digit.
pub open spec fn digit_char(d: int) -> char {
    if d == 0 {
        '0'
    } else if d == 1 {
        '1'
    } else if d == 2 {
        '2'
    } else if d == 3 {
        '3'
    } else if d == 4 {
        '4'
    } else if d == 5 {
        '5'
    } else if d == 6 {
        '6'
    } else if d == 7 {
        '7'
    } else if d == 8 {
        '8'
    } else {
        '9'
    }
}

/// The decimal rendering of a natural number, most significant digit first.
pub open spec fn spec_decimal(n: nat) -> Seq<char>
    decreases n,
{
    if n < 10 {
        seq![digit_char(n as int)]
    } else {
        spec_decimal(n / 10).push(digit_char((n % 10) as int))
    }
}

/// The decimal rendering of an integer, with a leading `-` when it is negative.
pub open spec fn spec_signed_decimal(n: int) -> Seq<char> {
    if n < 0 {
        seq!['-'] + spec_decimal((-n) as nat)
    } else {
        spec_decimal(n as nat)
    }
}

/// Appends one character (`String::push`).
#[verifier::external_body]
pub(crate) fn push_char(text: &mut String, c: char)
    ensures
        final(text)@ == old(text)@.push(c),
{
    text.push(c);
}

fn digit(d: u64) -> (c: char)
    requires
        d < 10,
    ensures
        c == digit_char(d as int),
{
    match d {
        0 => '0',
        1 => '1',
        2 => '2',
        3 => '3',
        4 => '4',
        5 => '5',
        6 => '6',
        7 => '7',
        8 => '8',
        _ => '9',
    }
}

/// Appends the decimal rendering of `n` to `text`.
pub fn push_decimal(text: &mut String, n: u64)
    ensures
        final(text)@ == old(text)@ + spec_decimal(n as nat),
    decreases n,
{
    if n >= 10 {
        push_decimal(text, n / 10);
    }
    push_char(text, digit(n % 10));
    proof {
        if n >= 10 {
            assert(spec_decimal(n as nat) == spec_decimal((n / 10) as nat).push(
                digit_char((n % 10) as int),
            ));
        }
    }
    assert(final(text)@ =~= old(text)@ + spec_decimal(n as nat));
}

/// Appends the decimal rendering of a signed number to `text`.
pub fn push_signed_decimal(text: &mut String, n: i64)
    ensures
        final(text)@ == old(text)@ + spec_signed_decimal(n as int),
{
    if n < 0 {
        push_char(text, '-');
        let magnitude: u64 = ((-(n + 1)) as u64) + 1;
        push_decimal(text, magnitude);
        assert(final(text)@ =~= old(text)@ + (seq!['-'] + spec_decimal((-n) as nat)));
    } else {
        push_decimal(text, n as u64);
    }
}

/// The decimal rendering of `n`.
pub fn decimal(n: u64) -> (text: String)
    ensures
        text@ == spec_decimal(n as nat),
{
    let mut text = String::new();
    push_decimal(&mut text, n);
    assert(text@ =~= spec_decimal(n as nat));
    text
}

/// The signed decimal rendering of `n`.
pub fn signed_decimal(n: i64) -> (text: String)
    ensures
        text@ == spec_signed_decimal(n as int),
{
    let mut text = String::new();
    push_signed_decimal(&mut text, n);
    assert(text@ =~= spec_signed_decimal(n as int));
    text
}

/// `prefix` followed by the decimal rendering of `n`.
pub fn with_decimal(prefix: &str, n: u64) -> (text: String)
    ensures
        text@ == prefix@ + spec_decimal(n as nat),
{
    let mut text = prefix.to_string();
    push_decimal(&mut text, n);
    text
}

/// `prefix` followed by the signed decimal rendering of `n`.
pub fn with_signed_decimal(prefix: &str, n: i64) -> (text: String)
    ensures
        text@ == prefix@ + spec_signed_decimal(n as int),
{
    let mut text = prefix.to_string();
    push_signed_decimal(&mut text, n);
    text
}

/// Whether two strings hold the same characters.
pub fn same_text(a: &str, b: &str) -> (same: bool)
    ensures
        same == (a@ == b@),
{
    a.to_string() == b.to_string()
}

/// `prefix` followed by `suffix`.
pub fn joined(prefix: &str, suffix: &str) -> (text: String)
    ensures
        text@ == prefix@ + suffix@,
{
    let mut text = prefix.to_string();
    text.append(suffix);
    text
}

/// Text of printable ASCII characters encodes to bytes without a NUL.
pub proof fn lemma_printable_has_no_nul(chars: Seq<char>)
    requires
        forall|i: int| 0 <= i < chars.len() ==> ' ' <= #[trigger] chars[i] <= '~',
    ensures
        !vstd::utf8::encode_utf8(chars).contains(0u8),
{
    assert(vstd::utf8::is_ascii_chars(chars));
    vstd::utf8::is_ascii_chars_encode_utf8(chars);
    if vstd::utf8::encode_utf8(chars).contains(0u8) {
        let j = choose|j: int|
            0 <= j < vstd::utf8::encode_utf8(chars).len() && vstd::utf8::encode_utf8(chars)[j]
                == 0u8;
        assert(chars[j] as u8 == 0u8);
        assert(' ' <= chars[j]);
    }
}

} // verus!

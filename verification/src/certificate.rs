//! Certificates and public keys: the handles, the reading of PEM text into
//! DER bytes, and the outcome of a signature check.

use vstd::prelude::*;
use vstd::utf8::valid_utf8;

use crate::bridge::{is_status_error, status_error, utf8_error_text, utf8_string};
use crate::encoding::{base64_standard_decode, decode_base64};
use crate::error::{OsStatus, Result, SecurityError};

verus! {

/// Wraps a public `SecKeyRef`.
#[derive(Debug)]
pub struct PublicKey<H> {
    handle: H,
}

impl<H> PublicKey<H> {
    /// The bridge handle this value holds.
    pub closed spec fn spec_handle(&self) -> H {
        self.handle
    }

    /// Wraps a handle that the bridge returned.
    pub fn from_handle(handle: H) -> (value: Self)
        ensures
            value.spec_handle() == handle,
    {
        PublicKey { handle }
    }

    /// The bridge handle this value holds.
    pub fn handle(&self) -> (handle: &H)
        ensures
            *handle == self.spec_handle(),
    {
        &self.handle
    }
}

/// Wraps `SecCertificateRef`.
#[derive(Debug)]
pub struct Certificate<H> {
    handle: H,
}

impl<H> Certificate<H> {
    /// The bridge handle this value holds.
    pub closed spec fn spec_handle(&self) -> H {
        self.handle
    }

    /// Wraps a handle that the bridge returned.
    pub fn from_handle(handle: H) -> (value: Self)
        ensures
            value.spec_handle() == handle,
    {
        Certificate { handle }
    }

    /// The bridge handle this value holds.
    pub fn handle(&self) -> (handle: &H)
        ensures
            *handle == self.spec_handle(),
    {
        &self.handle
    }
}

/// The byte of a line feed.
pub open spec fn is_line_feed(byte: u8) -> bool {
    byte == 10
}

/// The index of the first line feed at or after `start`, or the length of
/// `text` when there is none.
pub open spec fn next_line_feed(text: Seq<u8>, start: int) -> int
    decreases text.len() - start,
{
    if start >= text.len() {
        text.len() as int
    } else if is_line_feed(text[start]) {
        start
    } else {
        next_line_feed(text, start + 1)
    }
}

/// A line that a line feed ended, without the carriage return before it.
pub open spec fn without_carriage_return(line: Seq<u8>) -> Seq<u8> {
    if line.len() > 0 && line.last() == 13u8 {
        line.drop_last()
    } else {
        line
    }
}

/// A line of dashes that opens or closes a PEM block: it starts with five `-`.
pub open spec fn is_boundary_line(line: Seq<u8>) -> bool {
    line.len() >= 5 && line[0] == 45u8 && line[1] == 45u8 && line[2] == 45u8 && line[3] == 45u8
        && line[4] == 45u8
}

/// A line as the body keeps it: nothing of a boundary line, all of any other.
pub open spec fn kept_line(line: Seq<u8>) -> Seq<u8> {
    if is_boundary_line(line) {
        Seq::empty()
    } else {
        line
    }
}

/// The base64 body of PEM text from `start` on: its lines, as `str::lines`
/// splits them, without the boundary lines, joined without separators.
pub open spec fn pem_body_from(text: Seq<u8>, start: int) -> Seq<u8>
    decreases text.len() - start,
{
    if start < 0 || start >= text.len() {
        Seq::empty()
    } else {
        let end = next_line_feed(text, start);
        proof {
            lemma_next_line_feed_bounds(text, start);
        }
        if end >= text.len() {
            kept_line(text.subrange(start, text.len() as int))
        } else {
            kept_line(without_carriage_return(text.subrange(start, end))) + pem_body_from(
                text,
                end + 1,
            )
        }
    }
}

/// The base64 body of PEM text.
pub open spec fn pem_body(text: Seq<u8>) -> Seq<u8> {
    pem_body_from(text, 0)
}

/// The text of the error for PEM input that is not UTF-8.
pub open spec fn pem_utf8_error_text(pem: Seq<u8>) -> Seq<char> {
    "PEM input was not valid UTF-8: "@ + utf8_error_text(pem)
}

/// The text of the error for a PEM body that is not base64.
pub open spec fn pem_body_error_text(message: Seq<char>) -> Seq<char> {
    "invalid PEM body: "@ + message
}

/// The search for a line feed from `start` ends between `start` and the end.
pub proof fn lemma_next_line_feed_bounds(text: Seq<u8>, start: int)
    requires
        0 <= start <= text.len(),
    ensures
        start <= next_line_feed(text, start) <= text.len(),
    decreases text.len() - start,
{
    if start < text.len() && !is_line_feed(text[start]) {
        lemma_next_line_feed_bounds(text, start + 1);
    }
}

/// No line feed lies between `start` and `i`, so the search from `start`
/// finds what the search from `i` finds.
proof fn lemma_next_line_feed_skips(text: Seq<u8>, start: int, i: int)
    requires
        0 <= start <= i <= text.len(),
        forall|j: int| start <= j < i ==> !is_line_feed(#[trigger] text[j]),
    ensures
        next_line_feed(text, start) == next_line_feed(text, i),
    decreases i - start,
{
    if start < i {
        lemma_next_line_feed_skips(text, start + 1, i);
    }
}

/// The search for a line feed in `p + r` past `p` finds what the search in
/// `r` finds, moved by the length of `p`.
proof fn lemma_next_line_feed_shift(p: Seq<u8>, r: Seq<u8>, k: int)
    requires
        0 <= k <= r.len(),
    ensures
        next_line_feed(p + r, p.len() + k) == p.len() + next_line_feed(r, k),
    decreases r.len() - k,
{
    if k < r.len() {
        assert((p + r)[p.len() + k] == r[k]);
        if !is_line_feed(r[k]) {
            lemma_next_line_feed_shift(p, r, k + 1);
        }
    }
}

/// The body of `p + r` past `p` is the body of `r`.
proof fn lemma_pem_body_shift(p: Seq<u8>, r: Seq<u8>, k: int)
    requires
        0 <= k <= r.len(),
    ensures
        pem_body_from(p + r, p.len() + k) == pem_body_from(r, k),
    decreases r.len() - k,
{
    if k < r.len() {
        lemma_next_line_feed_shift(p, r, k);
        lemma_next_line_feed_bounds(r, k);
        let end = next_line_feed(r, k);
        if end < r.len() {
            assert((p + r).subrange(p.len() + k, p.len() + end) =~= r.subrange(k, end));
            lemma_pem_body_shift(p, r, end + 1);
        } else {
            assert((p + r).subrange(p.len() + k, (p + r).len() as int) =~= r.subrange(
                k,
                r.len() as int,
            ));
        }
    }
}

/// A line ended by a line feed adds what the body keeps of it, before the
/// body of the rest: nothing for a boundary line, the line itself (without a
/// carriage return before the line feed) for any other.
pub proof fn lemma_pem_body_line(line: Seq<u8>, rest: Seq<u8>)
    requires
        !line.contains(10u8),
    ensures
        pem_body(line + seq![10u8] + rest) == kept_line(without_carriage_return(line)) + pem_body(
            rest,
        ),
{
    let p = line + seq![10u8];
    let text = p + rest;
    assert forall|j: int| 0 <= j < line.len() implies !is_line_feed(#[trigger] text[j]) by {
        assert(text[j] == line[j]);
    }
    lemma_next_line_feed_skips(text, 0, line.len() as int);
    assert(text[line.len() as int] == 10u8);
    assert(next_line_feed(text, line.len() as int) == line.len());
    assert(text.subrange(0, line.len() as int) =~= line);
    lemma_pem_body_shift(p, rest, 0);
}

/// The DER bytes of a PEM certificate: the text must be UTF-8, and its body,
/// the lines other than the boundary lines, must be standard base64.
pub fn pem_to_der(pem: &[u8]) -> (result: Result<Vec<u8>>)
    ensures
        !valid_utf8(pem@) ==> (result matches Err(SecurityError::InvalidArgument(message))
            && message@ == pem_utf8_error_text(pem@)),
        valid_utf8(pem@) ==> match base64_standard_decode(pem_body(pem@)) {
            Ok(der) => result matches Ok(bytes) && bytes@ == der,
            Err(message) => result matches Err(SecurityError::InvalidArgument(text)) && text@
                == pem_body_error_text(message),
        },
{
    let copy = vstd::slice::slice_to_vec(pem);
    match utf8_string(copy) {
        Ok(_) => {},
        Err(message) => {
            return Err(
                SecurityError::InvalidArgument(
                    crate::text::joined("PEM input was not valid UTF-8: ", message.as_str()),
                ),
            );
        },
    }
    let body = pem_body_bytes(pem);
    match decode_base64(body.as_slice()) {
        Ok(der) => Ok(der),
        Err(message) => Err(
            SecurityError::InvalidArgument(
                crate::text::joined("invalid PEM body: ", message.as_str()),
            ),
        ),
    }
}

/// Appends to `body` what the body keeps of the line `text[start..end]`.
fn append_kept_line(body: &mut Vec<u8>, text: &[u8], start: usize, end: usize)
    requires
        start <= end <= text@.len(),
    ensures
        final(body)@ == old(body)@ + kept_line(text@.subrange(start as int, end as int)),
{
    let is_boundary = end - start >= 5 && text[start] == 45 && text[start + 1] == 45 && text[start
        + 2] == 45 && text[start + 3] == 45 && text[start + 4] == 45;
    if !is_boundary {
        let mut k: usize = start;
        while k < end
            invariant
                start <= k <= end <= text@.len(),
                body@ == old(body)@ + text@.subrange(start as int, k as int),
            decreases end - k,
        {
            body.push(text[k]);
            k = k + 1;
            assert(body@ =~= old(body)@ + text@.subrange(start as int, k as int));
        }
    }
    assert(is_boundary == is_boundary_line(text@.subrange(start as int, end as int)));
}

/// The base64 body of PEM text.
pub fn pem_body_bytes(text: &[u8]) -> (body: Vec<u8>)
    ensures
        body@ == pem_body(text@),
{
    let mut body: Vec<u8> = Vec::new();
    let mut start: usize = 0;
    let mut i: usize = 0;
    while i < text.len()
        invariant
            start <= i <= text@.len(),
            forall|j: int| start <= j < i ==> !is_line_feed(#[trigger] text@[j]),
            body@ + pem_body_from(text@, start as int) == pem_body(text@),
        decreases text@.len() - i,
    {
        if text[i] == 10 {
            proof {
                lemma_next_line_feed_skips(text@, start as int, i as int);
            }
            let ghost before = body@;
            let mut end = i;
            if end > start && text[end - 1] == 13 {
                end = end - 1;
            }
            assert(text@.subrange(start as int, end as int) == without_carriage_return(
                text@.subrange(start as int, i as int),
            )) by {
                if i > start && text@[i - 1] == 13u8 {
                    assert(text@.subrange(start as int, i as int).drop_last() =~= text@.subrange(
                        start as int,
                        end as int,
                    ));
                }
            }
            append_kept_line(&mut body, text, start, end);
            assert(body@ + pem_body_from(text@, i + 1) =~= before + pem_body_from(
                text@,
                start as int,
            ));
            start = i + 1;
        }
        i = i + 1;
    }
    proof {
        lemma_next_line_feed_skips(text@, start as int, i as int);
    }
    if start < text.len() {
        let ghost before = body@;
        append_kept_line(&mut body, text, start, text.len());
        assert(pem_body_from(text@, start as int) == kept_line(
            text@.subrange(start as int, text@.len() as int),
        ));
        assert(body@ == before + pem_body_from(text@, start as int));
    } else {
        assert(body@ + pem_body_from(text@, start as int) =~= body@);
    }
    body
}

/// What a signature check comes to: the bridge's verdict for a zero status,
/// the status's error otherwise.
pub fn signature_outcome(
    operation: &'static str,
    valid: bool,
    status: OsStatus,
    error_text: Result<Option<String>>,
) -> (result: Result<bool>)
    ensures
        status == 0 ==> result == Ok::<bool, SecurityError>(valid),
        status != 0 ==> match error_text {
            Ok(text) => result matches Err(error) && is_status_error(error, operation, status, text),
            Err(read_error) => result == Err::<bool, SecurityError>(read_error),
        },
{
    if status != 0 {
        match status_error(operation, status, error_text) {
            Ok(error) => Err(error),
            Err(read_error) => Err(read_error),
        }
    } else {
        Ok(valid)
    }
}

} // verus!

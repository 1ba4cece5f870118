//! Byte-level text rules shared by the reflector and the clients: line termination and
//! the lossy reading of bytes as UTF-8.
use vstd::prelude::*;
use vstd::slice::slice_to_vec;
use vstd::utf8::{decode_utf8, encode_utf8, valid_utf8};

verus! {

/// The byte that ends a line on the wire.
pub const NEWLINE: u8 = 10;

/// True when `s` is non-empty and its last byte is a newline.
pub open spec fn ends_with_newline(s: Seq<u8>) -> bool {
    s.len() > 0 && s.last() == NEWLINE
}

/// `s` with a newline appended, unless it already ends with one.
pub open spec fn terminated(s: Seq<u8>) -> Seq<u8> {
    if ends_with_newline(s) {
        s
    } else {
        s.push(NEWLINE)
    }
}

/// Tells whether `bytes` already ends with a newline.
pub fn has_trailing_newline(bytes: &[u8]) -> (r: bool)
    ensures
        r == ends_with_newline(bytes@),
{
    let n = bytes.len();
    n > 0 && bytes[n - 1] == NEWLINE
}

/// Appends a newline to `line` unless it already ends with one.
pub fn terminate_line(line: &mut Vec<u8>)
    ensures
        final(line)@ == terminated(old(line)@),
{
    if !has_trailing_newline(line.as_slice()) {
        line.push(NEWLINE);
    }
}

/// Appends the bytes of `tail` to `out`.
pub fn append_bytes(out: &mut Vec<u8>, tail: &[u8])
    ensures
        final(out)@ == old(out)@ + tail@,
{
    let mut i: usize = 0;
    while i < tail.len()
        invariant
            i <= tail@.len(),
            out@ == old(out)@ + tail@.subrange(0, i as int),
        decreases tail@.len() - i,
    {
        out.push(tail[i]);
        i = i + 1;
        assert(tail@.subrange(0, i as int) == tail@.subrange(0, i - 1) + seq![tail@[i - 1]]);
    }
    assert(tail@.subrange(0, i as int) == tail@);
}

/// A copy of `bytes` that ends with a newline: one is appended unless `bytes` already ends
/// with one.
pub fn with_newline(bytes: &[u8]) -> (r: Vec<u8>)
    ensures
        r@ == terminated(bytes@),
{
    let mut out: Vec<u8> = Vec::new();
    append_bytes(&mut out, bytes);
    terminate_line(&mut out);
    out
}

/// The characters that `String::from_utf8_lossy` makes of `bytes`: each invalid UTF-8
/// sequence becomes U+FFFD.
pub uninterp spec fn lossy_utf8(bytes: Seq<u8>) -> Seq<char>;

/// Relies on `String::from_utf8_lossy`: it reads `bytes` as UTF-8, replacing each invalid
/// sequence by U+FFFD, and reads valid UTF-8 as it stands.
#[verifier::external_body]
pub(crate) fn decode_lossy(bytes: &[u8]) -> (r: String)
    ensures
        r@ == lossy_utf8(bytes@),
        valid_utf8(bytes@) ==> r@ == decode_utf8(bytes@),
{
    String::from_utf8_lossy(bytes).into_owned()
}

/// The UTF-8 bytes of the lossy reading of `bytes`.
pub open spec fn lossy_bytes(bytes: Seq<u8>) -> Seq<u8> {
    encode_utf8(lossy_utf8(bytes))
}

/// The UTF-8 bytes of `text`.
pub fn text_bytes(text: &str) -> (r: Vec<u8>)
    ensures
        r@ == encode_utf8(text@),
{
    slice_to_vec(text.as_bytes())
}

/// Reads `bytes` as UTF-8 text, never failing: invalid sequences become U+FFFD. Valid
/// UTF-8 comes back unchanged.
pub fn sanitize_utf8(bytes: &[u8]) -> (r: Vec<u8>)
    ensures
        r@ == lossy_bytes(bytes@),
        valid_utf8(bytes@) ==> r@ == bytes@,
{
    let text = decode_lossy(bytes);
    proof {
        if valid_utf8(bytes@) {
            vstd::utf8::decode_utf8_encode_utf8(bytes@);
        }
    }
    text_bytes(text.as_str())
}

} // verus!

//! The byte rule: tab, line feed and printable ASCII stay, every other byte
//! becomes a space.

use crate::platform::string_from_utf8;
use vstd::pervasive::unreached;
use vstd::prelude::*;
use vstd::utf8::*;

verus! {

/// Whether a byte may stay as it is: tab, line feed, or printable ASCII
/// from space through tilde.
pub open spec fn is_allowed(b: u8) -> bool {
    b == 0x09 || b == 0x0A || (0x20 <= b && b <= 0x7E)
}

/// Whether every byte of a sequence may stay as it is.
pub open spec fn is_clean(bytes: Seq<u8>) -> bool {
    forall|i: int| 0 <= i < bytes.len() ==> is_allowed(#[trigger] bytes[i])
}

/// The byte that stands for `b` in cleaned output.
pub open spec fn sanitized_byte(b: u8) -> u8 {
    if is_allowed(b) {
        b
    } else {
        0x20
    }
}

/// The cleaned form of a byte sequence: position by position, allowed
/// bytes stay and every other byte becomes a space.
pub open spec fn sanitized(bytes: Seq<u8>) -> Seq<u8> {
    Seq::new(bytes.len(), |i: int| sanitized_byte(bytes[i]))
}

/// The cleaned form of a byte sequence, read as text: one character per
/// input byte, each the ASCII character of the cleaned byte.
pub open spec fn sanitized_text(bytes: Seq<u8>) -> Seq<char> {
    Seq::new(bytes.len(), |i: int| sanitized_byte(bytes[i]) as char)
}

/// Cleaning keeps the length.
pub proof fn lemma_sanitized_len(bytes: Seq<u8>)
    ensures
        sanitized(bytes).len() == bytes.len(),
{
}

/// Every byte of cleaned output is allowed.
pub proof fn lemma_sanitized_is_clean(bytes: Seq<u8>)
    ensures
        is_clean(sanitized(bytes)),
{
}

/// Cleaning leaves a sequence of allowed bytes as it is, and only such a
/// sequence.
pub proof fn lemma_sanitized_identity(bytes: Seq<u8>)
    ensures
        is_clean(bytes) <==> sanitized(bytes) == bytes,
{
    if is_clean(bytes) {
        assert(sanitized(bytes) =~= bytes);
    }
    if sanitized(bytes) == bytes {
        assert(forall|i: int| 0 <= i < bytes.len() ==> is_allowed(#[trigger] sanitized(bytes)[i]));
    }
}

/// Cleaning twice gives what cleaning once gives.
pub proof fn lemma_sanitized_idempotent(bytes: Seq<u8>)
    ensures
        sanitized(sanitized(bytes)) == sanitized(bytes),
{
}

/// Cleaned output is ASCII throughout, so it is valid UTF-8, and decoding
/// it gives one character per byte.
pub proof fn lemma_sanitized_decodes(bytes: Seq<u8>)
    ensures
        forall|i: int| 0 <= i < bytes.len() ==> #[trigger] sanitized(bytes)[i] < 0x80,
        valid_utf8(sanitized(bytes)),
        decode_utf8(sanitized(bytes)) == sanitized_text(bytes),
        encode_utf8(sanitized_text(bytes)) == sanitized(bytes),
{
    let text = sanitized_text(bytes);
    is_ascii_chars_encode_utf8(text);
    assert(encode_utf8(text) =~= sanitized(bytes));
    encode_utf8_valid_utf8(text);
    encode_utf8_decode_utf8(text);
}

/// Cleans one byte.
pub fn sanitize_byte(b: u8) -> (r: u8)
    ensures
        r == sanitized_byte(b),
{
    if b == 0x09 || b == 0x0A || (0x20 <= b && b <= 0x7E) {
        b
    } else {
        0x20
    }
}

/// Cleans a byte sequence of any length and any content. The output has
/// the length of the input, holds allowed bytes only, and equals the input
/// where the input was clean already.
pub fn sanitize(input: &[u8]) -> (output: Vec<u8>)
    ensures
        output@ == sanitized(input@),
        output@.len() == input@.len(),
        is_clean(output@),
        is_clean(input@) ==> output@ == input@,
{
    let mut output: Vec<u8> = Vec::with_capacity(input.len());
    let mut i: usize = 0;
    while i < input.len()
        invariant
            i <= input.len(),
            output@ == sanitized(input@.take(i as int)),
        decreases input.len() - i,
    {
        output.push(sanitize_byte(input[i]));
        i += 1;
    }
    proof {
        lemma_sanitized_identity(input@);
    }
    output
}

/// Cleans a byte sequence and returns it as text. The text has one
/// character per input byte, and its bytes are the cleaned bytes.
pub fn remove_non_ascii(input: &[u8]) -> (text: String)
    ensures
        text@ == sanitized_text(input@),
        text@.len() == input@.len(),
        encode_utf8(text@) == sanitized(input@),
{
    let bytes = sanitize(input);
    proof {
        lemma_sanitized_decodes(input@);
    }
    match string_from_utf8(bytes) {
        Some(text) => {
            proof {
                encode_utf8_decode_utf8(text@);
            }
            text
        },
        None => unreached(),
    }
}

} // verus!

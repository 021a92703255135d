//! Text at the boundary: where the text in a terminated string buffer ends,
//! and which byte sequences may be handed out as a terminated string.

use crate::error::BoundaryError;
use vstd::prelude::*;
use vstd::utf8::*;

verus! {

/// The length of the text in a terminated string buffer: the number of bytes
/// before the first zero byte, or the length of the buffer where it holds none.
pub open spec fn text_length(buffer: Seq<u8>) -> int {
    match buffer.index_of_first(0u8) {
        Some(index) => index,
        None => buffer.len() as int,
    }
}

/// The text in a terminated string buffer: what precedes the first zero byte.
/// Whatever follows that byte is not part of the text.
pub open spec fn terminated_text(buffer: Seq<u8>) -> Seq<u8> {
    buffer.take(text_length(buffer))
}

/// Whether `bytes` may be handed out as a terminated string: they are valid
/// UTF-8 and none of them is zero.
pub open spec fn is_text(bytes: Seq<u8>) -> bool {
    valid_utf8(bytes) && !bytes.contains(0u8)
}

/// The characters that `bytes` stand for where they are text, and the
/// encoding error where they are not.
pub open spec fn text_of_bytes(bytes: Seq<u8>) -> Result<Seq<char>, BoundaryError> {
    if is_text(bytes) {
        Ok(decode_utf8(bytes))
    } else {
        Err(BoundaryError::Encoding)
    }
}

/// `text_length` is the position of the first zero byte: no byte before it is
/// zero, and the byte at it, where there is one, is zero.
pub proof fn lemma_text_length(buffer: Seq<u8>)
    ensures
        0 <= text_length(buffer) <= buffer.len(),
        forall|i: int| 0 <= i < text_length(buffer) ==> buffer[i] != 0,
        text_length(buffer) < buffer.len() ==> buffer[text_length(buffer)] == 0,
        text_length(buffer) == buffer.len() <==> !buffer.contains(0u8),
{
    buffer.index_of_first_ensures(0u8);
}

/// A position with no zero byte before it and a zero byte, or the end of the
/// buffer, at it is the `text_length`.
pub proof fn lemma_text_length_is(buffer: Seq<u8>, length: int)
    requires
        0 <= length <= buffer.len(),
        forall|i: int| 0 <= i < length ==> buffer[i] != 0,
        length < buffer.len() ==> buffer[length] == 0,
    ensures
        text_length(buffer) == length,
{
    lemma_text_length(buffer);
    let found = text_length(buffer);
    if found < length {
        assert(buffer[found] == 0);
    } else if length < found {
        assert(buffer[length] == 0);
    }
}

/// Finds the end of the text in a terminated string buffer.
pub fn scan_to_terminator(buffer: &[u8]) -> (length: usize)
    ensures
        length == text_length(buffer@),
        length <= buffer@.len(),
{
    let mut index: usize = 0;
    while index < buffer.len() && buffer[index] != 0
        invariant
            index <= buffer@.len(),
            forall|i: int| 0 <= i < index ==> buffer@[i] != 0,
        decreases buffer@.len() - index,
    {
        index += 1;
    }
    proof {
        lemma_text_length_is(buffer@, index as int);
    }
    index
}

/// Converts bytes to a `String` with `String::from_utf8`, which succeeds
/// exactly on valid UTF-8 and then yields the characters that the bytes encode.
#[verifier::external_body]
fn string_from_utf8(bytes: Vec<u8>) -> (text: Option<String>)
    ensures
        text is Some <==> valid_utf8(bytes@),
        text matches Some(string) ==> string@ == decode_utf8(bytes@),
{
    String::from_utf8(bytes).ok()
}

/// Turns decompressed bytes into text, or says that they are none.
///
/// Succeeds exactly on valid UTF-8 without a zero byte; the text then holds
/// the characters that the bytes encode.
pub fn text_from_bytes(bytes: Vec<u8>) -> (out: Result<String, BoundaryError>)
    ensures
        match out {
            Ok(text) => text_of_bytes(bytes@) == Ok::<Seq<char>, BoundaryError>(text@),
            Err(error) => text_of_bytes(bytes@) == Err::<Seq<char>, BoundaryError>(error),
        },
{
    let has_nul = scan_to_terminator(bytes.as_slice()) < bytes.len();
    proof {
        lemma_text_length(bytes@);
    }
    match string_from_utf8(bytes) {
        Some(text) => {
            if has_nul {
                Err(BoundaryError::Encoding)
            } else {
                Ok(text)
            }
        },
        None => Err(BoundaryError::Encoding),
    }
}

proof fn lemma_marked_byte_nonzero(low: u8)
    by (bit_vector)
    ensures
        0x80u8 | low != 0,
        0xC0u8 | low != 0,
        0xE0u8 | low != 0,
        0xF0u8 | low != 0,
{
}

proof fn lemma_single_byte_nonzero(scalar: u32)
    by (bit_vector)
    requires
        1 <= scalar <= 0x7F,
    ensures
        (scalar & 0x7F) as u8 != 0,
{
}

/// The encoding of a character other than NUL holds no zero byte.
pub proof fn lemma_encoded_scalar_has_no_nul(c: char)
    requires
        c != '\0',
    ensures
        !encode_scalar(c as u32).contains(0u8),
{
    let scalar = c as u32;
    char_is_scalar(c);
    if scalar == 0 {
        char_u32_cast(c, 0u32);
        char_u32_cast('\0', 0u32);
        assert(false);
    }
    let encoded = encode_scalar(scalar);
    if has_width_1_encoding(scalar) {
        lemma_single_byte_nonzero(scalar);
    } else {
        lemma_marked_byte_nonzero(((scalar >> 6) & 0x1F) as u8);
        lemma_marked_byte_nonzero(((scalar >> 12) & 0x0F) as u8);
        lemma_marked_byte_nonzero(((scalar >> 18) & 0x7) as u8);
        lemma_marked_byte_nonzero((scalar & 0x3F) as u8);
        lemma_marked_byte_nonzero(((scalar >> 6) & 0x3F) as u8);
        lemma_marked_byte_nonzero(((scalar >> 12) & 0x3F) as u8);
    }
    assert forall|i: int| 0 <= i < encoded.len() implies encoded[i] != 0 by {}
}

/// The UTF-8 encoding of characters among which there is no NUL holds no zero
/// byte.
pub proof fn lemma_encoded_text_has_no_nul(text: Seq<char>)
    requires
        !text.contains('\0'),
    ensures
        !encode_utf8(text).contains(0u8),
    decreases text.len(),
{
    if text.len() > 0 {
        let head = encode_scalar(text[0] as u32);
        let tail = encode_utf8(text.drop_first());
        assert(text.contains(text[0]));
        lemma_encoded_scalar_has_no_nul(text[0]);
        assert forall|c: char| text.drop_first().contains(c) implies text.contains(c) by {
            let i = choose|i: int| 0 <= i < text.drop_first().len() && text.drop_first()[i] == c;
            assert(text[i + 1] == c);
        }
        lemma_encoded_text_has_no_nul(text.drop_first());
        assert forall|i: int| 0 <= i < (head + tail).len() implies (head + tail)[i] != 0 by {
            if i < head.len() {
                assert(head.contains(head[i]));
            } else {
                assert(tail.contains(tail[i - head.len()]));
            }
        }
    }
}

/// Characters among which there is no NUL survive being encoded as UTF-8 and
/// read back as text.
pub proof fn lemma_encoded_text_is_text(text: Seq<char>)
    requires
        !text.contains('\0'),
    ensures
        is_text(encode_utf8(text)),
        text_of_bytes(encode_utf8(text)) == Ok::<Seq<char>, BoundaryError>(text),
{
    lemma_encoded_text_has_no_nul(text);
    encode_utf8_valid_utf8(text);
    encode_utf8_decode_utf8(text);
}

/// A buffer that holds the encoding of NUL-free characters, then a zero byte,
/// then anything at all, holds exactly that encoding as its text; so does a
/// buffer that ends with the encoding.
pub proof fn lemma_terminated_text_of_encoding(text: Seq<char>, rest: Seq<u8>)
    requires
        !text.contains('\0'),
    ensures
        terminated_text(encode_utf8(text) + seq![0u8] + rest) == encode_utf8(text),
        terminated_text(encode_utf8(text)) == encode_utf8(text),
{
    let encoded = encode_utf8(text);
    lemma_encoded_text_has_no_nul(text);
    let buffer = encoded + seq![0u8] + rest;
    assert forall|i: int| 0 <= i < encoded.len() implies buffer[i] != 0 && encoded[i] != 0 by {
        assert(encoded.contains(encoded[i]));
    }
    lemma_text_length_is(buffer, encoded.len() as int);
    lemma_text_length_is(encoded, encoded.len() as int);
    assert(buffer.take(encoded.len() as int) =~= encoded);
    assert(encoded.take(encoded.len() as int) =~= encoded);
}

} // verus!

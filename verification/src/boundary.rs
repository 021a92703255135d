//! The operations of the boundary layer. Each takes its input as a view that
//! may be absent, the way a pointer may be null; validates and normalises what
//! it was given; runs the codec; and hands the result over together with its
//! length, or says why there is none.

use crate::codec::{brotli_decoded, brotli_encoded, compress_internal, decompress_internal};
use crate::error::BoundaryError;
use crate::params::{
    clamped_quality,
    clamped_window_size,
    CompressionParameters,
    MAX_QUALITY,
    MAX_WINDOW_SIZE,
    MIN_WINDOW_SIZE,
};
use crate::text::{
    lemma_encoded_text_is_text,
    scan_to_terminator,
    terminated_text,
    text_from_bytes,
    text_of_bytes,
};
use vstd::prelude::*;
use vstd::utf8::*;

verus! {

/// The stream that compressing `input` gives, with the requested parameters
/// normalised first; `None` where the codec fails.
pub open spec fn compressed(input: Seq<u8>, quality: u32, window_size: u32) -> Option<Seq<u8>> {
    brotli_encoded(input, clamped_quality(quality), clamped_window_size(window_size))
}

/// The bytes that decompressing `stream` gives; `None` where the codec rejects
/// the stream.
pub open spec fn decompressed(stream: Seq<u8>) -> Option<Seq<u8>> {
    brotli_decoded(stream)
}

/// The bytes of an input view, where there is one.
pub open spec fn buffer_view(input: Option<&[u8]>) -> Option<Seq<u8>> {
    match input {
        Some(buffer) => Some(buffer@),
        None => None,
    }
}

/// The text in an input view over a terminated string, where there is one.
pub open spec fn text_view(input: Option<&[u8]>) -> Option<Seq<u8>> {
    match input {
        Some(buffer) => Some(terminated_text(buffer@)),
        None => None,
    }
}

/// An outcome with its bytes as a sequence.
pub open spec fn bytes_outcome_view(outcome: Result<Vec<u8>, BoundaryError>) -> Result<
    Seq<u8>,
    BoundaryError,
> {
    match outcome {
        Ok(bytes) => Ok(bytes@),
        Err(error) => Err(error),
    }
}

/// An outcome with its text as a sequence of characters.
pub open spec fn text_outcome_view(outcome: Result<String, BoundaryError>) -> Result<
    Seq<char>,
    BoundaryError,
> {
    match outcome {
        Ok(text) => Ok(text@),
        Err(error) => Err(error),
    }
}

/// What `compress` returns: a null-pointer error where the input or the
/// output slot is absent, else the compressed stream, or a codec error where
/// the codec fails.
pub open spec fn compress_outcome(
    input: Option<Seq<u8>>,
    quality: u32,
    window_size: u32,
    has_output_slot: bool,
) -> Result<Seq<u8>, BoundaryError> {
    match input {
        Some(bytes) => if has_output_slot {
            match compressed(bytes, quality, window_size) {
                Some(stream) => Ok(stream),
                None => Err(BoundaryError::Codec),
            }
        } else {
            Err(BoundaryError::NullPointer)
        },
        None => Err(BoundaryError::NullPointer),
    }
}

/// What `decompress` returns: a null-pointer error where the input or the
/// output slot is absent, else the decompressed bytes, or a codec error where
/// the codec rejects the stream.
pub open spec fn decompress_outcome(input: Option<Seq<u8>>, has_output_slot: bool) -> Result<
    Seq<u8>,
    BoundaryError,
> {
    match input {
        Some(stream) => if has_output_slot {
            match decompressed(stream) {
                Some(bytes) => Ok(bytes),
                None => Err(BoundaryError::Codec),
            }
        } else {
            Err(BoundaryError::NullPointer)
        },
        None => Err(BoundaryError::NullPointer),
    }
}

/// What `decompress_to_string` returns: a null-pointer error where the input
/// is absent, a codec error where the codec rejects the stream, an encoding
/// error where the decompressed bytes are not text, else the text.
pub open spec fn decompress_to_string_outcome(input: Option<Seq<u8>>) -> Result<
    Seq<char>,
    BoundaryError,
> {
    match input {
        Some(stream) => match decompressed(stream) {
            Some(bytes) => text_of_bytes(bytes),
            None => Err(BoundaryError::Codec),
        },
        None => Err(BoundaryError::NullPointer),
    }
}

/// Hands an outcome of the codec over to the caller: on success the length of
/// the bytes is written to the output slot; on failure the slot is left as it
/// was. The outcome itself is passed on unchanged.
pub fn hand_over(outcome: Result<Vec<u8>, BoundaryError>, output_len: &mut usize) -> (out: Result<
    Vec<u8>,
    BoundaryError,
>)
    ensures
        out == outcome,
        *final(output_len) == (match outcome {
            Ok(bytes) => bytes.len(),
            Err(_) => *old(output_len),
        }),
{
    match outcome {
        Ok(bytes) => {
            *output_len = bytes.len();
            Ok(bytes)
        },
        Err(error) => Err(error),
    }
}

/// Compresses a byte buffer.
///
/// Quality and window size may be any number: they are brought into range, not
/// rejected. Fails with a null-pointer error where the input or the output
/// slot is absent, and with a codec error where the codec fails; otherwise
/// returns the compressed stream and writes its length to the output slot.
/// Nothing is written to the slot on failure. A stream that is returned is
/// one that `decompress` turns back into the input; it need not be shorter
/// than the input.
pub fn compress(
    input: Option<&[u8]>,
    quality: u32,
    window_size: u32,
    output_len: Option<&mut usize>,
) -> (out: Result<Vec<u8>, BoundaryError>)
    ensures
        bytes_outcome_view(out) == compress_outcome(
            buffer_view(input),
            quality,
            window_size,
            output_len is Some,
        ),
        output_len matches Some(slot) ==> *final(slot) == (match out {
            Ok(stream) => stream.len(),
            Err(_) => *slot,
        }),
        out matches Ok(stream) ==> decompress_outcome(Some(stream@), true) == Ok::<
            Seq<u8>,
            BoundaryError,
        >(input->0@),
{
    let buffer = match input {
        Some(buffer) => buffer,
        None => {
            return Err(BoundaryError::NullPointer);
        },
    };
    let slot = match output_len {
        Some(slot) => slot,
        None => {
            return Err(BoundaryError::NullPointer);
        },
    };
    let params = CompressionParameters::new(quality, window_size);
    hand_over(compress_internal(buffer, &params), slot)
}

/// Decompresses a byte buffer.
///
/// Fails with a null-pointer error where the input or the output slot is
/// absent, and with a codec error where the codec rejects the stream;
/// otherwise returns the decompressed bytes and writes their length to the
/// output slot. Nothing is written to the slot on failure.
pub fn decompress(input: Option<&[u8]>, output_len: Option<&mut usize>) -> (out: Result<
    Vec<u8>,
    BoundaryError,
>)
    ensures
        bytes_outcome_view(out) == decompress_outcome(buffer_view(input), output_len is Some),
        output_len matches Some(slot) ==> *final(slot) == (match out {
            Ok(bytes) => bytes.len(),
            Err(_) => *slot,
        }),
{
    let buffer = match input {
        Some(buffer) => buffer,
        None => {
            return Err(BoundaryError::NullPointer);
        },
    };
    let slot = match output_len {
        Some(slot) => slot,
        None => {
            return Err(BoundaryError::NullPointer);
        },
    };
    hand_over(decompress_internal(buffer), slot)
}

/// Compresses the text in a terminated string buffer.
///
/// The text is what precedes the first zero byte of the buffer, or all of it
/// where it holds none: a zero byte inside a text is not supported, it ends
/// the text. The text is then compressed as `compress` does it, with the same
/// failures. A stream that is returned is one that `decompress` turns back
/// into the text; where the text is the UTF-8 encoding of characters among
/// which there is no NUL, `decompress_to_string` turns the stream back into
/// those characters.
pub fn compress_string(
    input: Option<&[u8]>,
    quality: u32,
    window_size: u32,
    output_len: Option<&mut usize>,
) -> (out: Result<Vec<u8>, BoundaryError>)
    ensures
        bytes_outcome_view(out) == compress_outcome(
            text_view(input),
            quality,
            window_size,
            output_len is Some,
        ),
        output_len matches Some(slot) ==> *final(slot) == (match out {
            Ok(stream) => stream.len(),
            Err(_) => *slot,
        }),
        out matches Ok(stream) ==> decompress_outcome(Some(stream@), true) == Ok::<
            Seq<u8>,
            BoundaryError,
        >(terminated_text(input->0@)),
        out matches Ok(stream) ==> forall|text: Seq<char>|
            !text.contains('\0') && text_view(input) == Some(#[trigger] encode_utf8(text))
                ==> decompress_to_string_outcome(Some(stream@)) == Ok::<Seq<char>, BoundaryError>(
                text,
            ),
{
    let buffer = match input {
        Some(buffer) => buffer,
        None => {
            return Err(BoundaryError::NullPointer);
        },
    };
    let length = scan_to_terminator(buffer);
    let text = vstd::slice::slice_subrange(buffer, 0, length);
    assert(text@ == terminated_text(buffer@));
    let out = compress(Some(text), quality, window_size, output_len);
    proof {
        if out is Ok {
            let stream = out->Ok_0@;
            assert forall|chars: Seq<char>|
                !chars.contains('\0') && text_view(input) == Some(
                    #[trigger] encode_utf8(chars),
                ) implies decompress_to_string_outcome(Some(stream)) == Ok::<
                Seq<char>,
                BoundaryError,
            >(chars) by {
                lemma_encoded_text_is_text(chars);
            }
        }
    }
    out
}

/// Decompresses a byte buffer into text.
///
/// Fails with a null-pointer error where the input is absent, with a codec
/// error where the codec rejects the stream, and with an encoding error where
/// the decompressed bytes are not valid UTF-8 or hold a zero byte: bytes that
/// are no text are never passed off as a string.
pub fn decompress_to_string(input: Option<&[u8]>) -> (out: Result<String, BoundaryError>)
    ensures
        text_outcome_view(out) == decompress_to_string_outcome(buffer_view(input)),
{
    let buffer = match input {
        Some(buffer) => buffer,
        None => {
            return Err(BoundaryError::NullPointer);
        },
    };
    match decompress_internal(buffer) {
        Ok(bytes) => text_from_bytes(bytes),
        Err(error) => Err(error),
    }
}

/// An operation given an absent input, or no output slot where it needs one,
/// fails with a null-pointer error, whatever else it is given.
pub proof fn lemma_null_safety(
    input: Option<Seq<u8>>,
    quality: u32,
    window_size: u32,
    has_output_slot: bool,
)
    ensures
        input is None || !has_output_slot ==> compress_outcome(
            input,
            quality,
            window_size,
            has_output_slot,
        ) == Err::<Seq<u8>, BoundaryError>(BoundaryError::NullPointer),
        input is None || !has_output_slot ==> decompress_outcome(input, has_output_slot) == Err::<
            Seq<u8>,
            BoundaryError,
        >(BoundaryError::NullPointer),
        input is None ==> decompress_to_string_outcome(input) == Err::<Seq<char>, BoundaryError>(
            BoundaryError::NullPointer,
        ),
{
}

/// Compressing with parameters out of range is compressing with the nearest
/// parameters in range: any quality of at least `MAX_QUALITY` gives what
/// `MAX_QUALITY` gives, any window size of at most `MIN_WINDOW_SIZE` what
/// `MIN_WINDOW_SIZE` gives, and any of at least `MAX_WINDOW_SIZE` what
/// `MAX_WINDOW_SIZE` gives.
pub proof fn lemma_clamped_parameters_compress_alike(
    input: Option<Seq<u8>>,
    quality: u32,
    window_size: u32,
    has_output_slot: bool,
)
    ensures
        compress_outcome(input, quality, window_size, has_output_slot) == compress_outcome(
            input,
            clamped_quality(quality),
            clamped_window_size(window_size),
            has_output_slot,
        ),
        quality >= MAX_QUALITY ==> compress_outcome(input, quality, window_size, has_output_slot)
            == compress_outcome(input, MAX_QUALITY, window_size, has_output_slot),
        window_size <= MIN_WINDOW_SIZE ==> compress_outcome(
            input,
            quality,
            window_size,
            has_output_slot,
        ) == compress_outcome(input, quality, MIN_WINDOW_SIZE, has_output_slot),
        window_size >= MAX_WINDOW_SIZE ==> compress_outcome(
            input,
            quality,
            window_size,
            has_output_slot,
        ) == compress_outcome(input, quality, MAX_WINDOW_SIZE, has_output_slot),
{
}

/// A stream that `decompress` turns into the UTF-8 encoding of characters
/// among which there is no NUL is one that `decompress_to_string` turns into
/// those characters.
pub proof fn lemma_text_round_trip(text: Seq<char>, stream: Seq<u8>)
    requires
        !text.contains('\0'),
        decompress_outcome(Some(stream), true) == Ok::<Seq<u8>, BoundaryError>(encode_utf8(text)),
    ensures
        decompress_to_string_outcome(Some(stream)) == Ok::<Seq<char>, BoundaryError>(text),
{
    lemma_encoded_text_is_text(text);
}

} // verus!

//! The codec itself, which this library treats as a black box: two streaming
//! transforms of the `brotli` crate, run over a whole buffer in one pass.

use crate::error::BoundaryError;
use crate::params::{CompressionParameters, MAX_QUALITY, MAX_WINDOW_SIZE, MIN_WINDOW_SIZE};
use std::io::Read;
use vstd::prelude::*;

verus! {

/// `std::io::Error`, in which the streaming transforms report a failure. It is
/// only carried from the call to where it becomes a `BoundaryError`.
#[verifier::external_type_specification]
#[verifier::external_body]
pub struct ExIoError(std::io::Error);

/// What the encoder makes of `input` at a quality and a window size: the
/// compressed stream, or `None` where it reports an error.
pub uninterp spec fn brotli_encoded(input: Seq<u8>, quality: u32, window_size: u32) -> Option<
    Seq<u8>,
>;

/// What the decoder makes of `stream`: the decompressed bytes, or `None`
/// where it rejects the stream.
pub uninterp spec fn brotli_decoded(stream: Seq<u8>) -> Option<Seq<u8>>;

/// Runs `brotli::CompressorReader::with_params` over `input`, with every
/// parameter but quality and window size at its default and a 4096-byte
/// buffer, and drains it with `read_to_end`.
///
/// Trusted, not proved: the encoder's output depends on nothing but the input
/// and the two parameters (the crate is built with target-independent cost
/// estimation), and a stream it has produced is one that the decoder turns
/// back into the input.
#[verifier::external_body]
fn encode_stream(input: &[u8], quality: u32, window_size: u32) -> (r: Result<
    Vec<u8>,
    std::io::Error,
>)
    requires
        quality <= MAX_QUALITY,
        MIN_WINDOW_SIZE <= window_size <= MAX_WINDOW_SIZE,
    ensures
        r matches Ok(stream) ==> brotli_encoded(input@, quality, window_size) == Some(stream@),
        r matches Ok(stream) ==> brotli_decoded(stream@) == Some(input@),
        r is Err ==> brotli_encoded(input@, quality, window_size) is None,
{
    let params = brotli::enc::BrotliEncoderParams {
        quality: quality as i32,
        lgwin: window_size as i32,
        ..Default::default()
    };
    let mut output = Vec::new();
    let mut reader = brotli::CompressorReader::with_params(input, 4096, &params);
    reader.read_to_end(&mut output)?;
    Ok(output)
}

/// Runs `brotli::Decompressor::new` over `input`, with a 4096-byte buffer, and
/// drains it with `read_to_end`.
///
/// Trusted, not proved: the decoder's verdict and output depend on nothing but
/// the input.
#[verifier::external_body]
fn decode_stream(input: &[u8]) -> (r: Result<Vec<u8>, std::io::Error>)
    ensures
        r matches Ok(bytes) ==> brotli_decoded(input@) == Some(bytes@),
        r is Err ==> brotli_decoded(input@) is None,
{
    let mut output = Vec::new();
    let mut reader = brotli::Decompressor::new(input, 4096);
    reader.read_to_end(&mut output)?;
    Ok(output)
}

/// Compresses `input` with parameters that are already in range.
///
/// Succeeds exactly where the encoder does, with the encoder's stream; that
/// stream decodes back to `input`.
pub fn compress_internal(input: &[u8], params: &CompressionParameters) -> (out: Result<
    Vec<u8>,
    BoundaryError,
>)
    ensures
        match out {
            Ok(stream) => {
                &&& brotli_encoded(input@, params@.0, params@.1) == Some(stream@)
                &&& brotli_decoded(stream@) == Some(input@)
            },
            Err(error) => {
                &&& error == BoundaryError::Codec
                &&& brotli_encoded(input@, params@.0, params@.1) is None
            },
        },
{
    match encode_stream(input, params.quality(), params.window_size()) {
        Ok(stream) => Ok(stream),
        Err(_) => Err(BoundaryError::Codec),
    }
}

/// Decompresses `input`.
///
/// Succeeds exactly where the decoder accepts the stream, with the decoder's
/// output. No format check is made here, and no limit is put on the size of
/// the output.
pub fn decompress_internal(input: &[u8]) -> (out: Result<Vec<u8>, BoundaryError>)
    ensures
        match out {
            Ok(bytes) => brotli_decoded(input@) == Some(bytes@),
            Err(error) => error == BoundaryError::Codec && brotli_decoded(input@) is None,
        },
{
    match decode_stream(input) {
        Ok(bytes) => Ok(bytes),
        Err(_) => Err(BoundaryError::Codec),
    }
}

} // verus!

//! Advisory heuristics: which quality suits an input of a given size, and
//! roughly how large the compressed result will be. Both are pure lookups;
//! neither invokes the codec.

use vstd::prelude::*;

verus! {

/// Inputs up to this many bytes count as small.
pub const SMALL_INPUT_LIMIT: usize = 1024;

/// Inputs up to this many bytes, and above `SMALL_INPUT_LIMIT`, count as medium.
pub const MEDIUM_INPUT_LIMIT: usize = 10240;

/// Inputs up to this many bytes, and above `MEDIUM_INPUT_LIMIT`, count as large.
pub const LARGE_INPUT_LIMIT: usize = 102400;

/// The quality recommended for an input of `input_size` bytes: larger inputs
/// repay slower, denser compression.
pub open spec fn recommended_quality(input_size: nat) -> u32 {
    if input_size <= SMALL_INPUT_LIMIT {
        4
    } else if input_size <= MEDIUM_INPUT_LIMIT {
        6
    } else if input_size <= LARGE_INPUT_LIMIT {
        8
    } else {
        10
    }
}

/// The expected ratio of compressed to uncompressed size at a quality, in
/// tenths.
pub open spec fn ratio_tenths(quality: u32) -> nat {
    if quality <= 3 {
        7
    } else if quality <= 6 {
        5
    } else if quality <= 9 {
        4
    } else {
        3
    }
}

/// The estimated compressed size of `input_size` bytes at a quality: the input
/// size times the expected ratio, rounded down.
pub open spec fn estimated_size(input_size: nat, quality: u32) -> nat {
    (input_size * ratio_tenths(quality)) / 10
}

/// Recommends a quality for an input of the given size.
pub fn get_recommended_quality(input_size: usize) -> (quality: u32)
    ensures
        quality == recommended_quality(input_size as nat),
{
    if input_size <= SMALL_INPUT_LIMIT {
        4
    } else if input_size <= MEDIUM_INPUT_LIMIT {
        6
    } else if input_size <= LARGE_INPUT_LIMIT {
        8
    } else {
        10
    }
}

/// Estimates the compressed size of an input. The figure is a rough guide and
/// never exceeds the input size.
pub fn estimate_compressed_size(input_size: usize, quality: u32) -> (estimate: usize)
    ensures
        estimate == estimated_size(input_size as nat, quality),
        estimate <= input_size,
{
    let tenths: u128 = if quality <= 3 {
        7
    } else if quality <= 6 {
        5
    } else if quality <= 9 {
        4
    } else {
        3
    };
    let scaled: u128 = (input_size as u128) * tenths / 10;
    scaled as usize
}

/// The recommended quality never decreases as the input grows.
pub proof fn lemma_recommended_quality_monotonic(smaller: nat, larger: nat)
    requires
        smaller <= larger,
    ensures
        recommended_quality(smaller) <= recommended_quality(larger),
{
}

/// The estimate never exceeds the input size, whatever the quality.
pub proof fn lemma_estimate_bounded(input_size: nat, quality: u32)
    ensures
        estimated_size(input_size, quality) <= input_size,
{
}

} // verus!

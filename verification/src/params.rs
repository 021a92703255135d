//! Compression parameters and the normalisation applied to them before the
//! codec sees them. Out-of-range values are corrected, never rejected.

use vstd::prelude::*;

verus! {

/// Highest quality the codec accepts.
pub const MAX_QUALITY: u32 = 11;

/// Smallest window size (as a base-two logarithm) the codec accepts.
pub const MIN_WINDOW_SIZE: u32 = 10;

/// Largest window size (as a base-two logarithm) the codec accepts.
pub const MAX_WINDOW_SIZE: u32 = 24;

/// The quality actually used for a requested quality: the smaller of the
/// request and `MAX_QUALITY`.
pub open spec fn clamped_quality(quality: u32) -> u32 {
    if quality <= MAX_QUALITY {
        quality
    } else {
        MAX_QUALITY
    }
}

/// The window size actually used for a requested one: the request moved to the
/// nearest value in `MIN_WINDOW_SIZE ..= MAX_WINDOW_SIZE`.
pub open spec fn clamped_window_size(window_size: u32) -> u32 {
    if window_size < MIN_WINDOW_SIZE {
        MIN_WINDOW_SIZE
    } else if window_size > MAX_WINDOW_SIZE {
        MAX_WINDOW_SIZE
    } else {
        window_size
    }
}

/// Brings a requested quality into the accepted range.
pub fn clamp_quality(quality: u32) -> (clamped: u32)
    ensures
        clamped == clamped_quality(quality),
        clamped <= MAX_QUALITY,
{
    if quality <= MAX_QUALITY {
        quality
    } else {
        MAX_QUALITY
    }
}

/// Brings a requested window size into the accepted range.
pub fn clamp_window_size(window_size: u32) -> (clamped: u32)
    ensures
        clamped == clamped_window_size(window_size),
        MIN_WINDOW_SIZE <= clamped <= MAX_WINDOW_SIZE,
{
    if window_size < MIN_WINDOW_SIZE {
        MIN_WINDOW_SIZE
    } else if window_size > MAX_WINDOW_SIZE {
        MAX_WINDOW_SIZE
    } else {
        window_size
    }
}

/// A quality and a window size that the codec accepts as they are.
///
/// A value of this type always lies in range: the only way to build one is
/// `new`, which normalises whatever it is given.
#[derive(Clone, Copy, Debug)]
pub struct CompressionParameters {
    quality: u32,
    window_size: u32,
}

impl View for CompressionParameters {
    type V = (u32, u32);

    /// The pair of quality and window size.
    closed spec fn view(&self) -> (u32, u32) {
        (self.quality, self.window_size)
    }
}

impl CompressionParameters {
    #[verifier::type_invariant]
    spec fn in_range(self) -> bool {
        &&& self.quality <= MAX_QUALITY
        &&& MIN_WINDOW_SIZE <= self.window_size <= MAX_WINDOW_SIZE
    }

    /// Normalises a requested quality and window size.
    pub fn new(quality: u32, window_size: u32) -> (params: Self)
        ensures
            params@ == (clamped_quality(quality), clamped_window_size(window_size)),
    {
        CompressionParameters {
            quality: clamp_quality(quality),
            window_size: clamp_window_size(window_size),
        }
    }

    /// The quality, between 0 and `MAX_QUALITY`.
    pub fn quality(&self) -> (quality: u32)
        ensures
            quality == self@.0,
            quality <= MAX_QUALITY,
    {
        proof {
            use_type_invariant(self);
        }
        self.quality
    }

    /// The window size, between `MIN_WINDOW_SIZE` and `MAX_WINDOW_SIZE`.
    pub fn window_size(&self) -> (window_size: u32)
        ensures
            window_size == self@.1,
            MIN_WINDOW_SIZE <= window_size <= MAX_WINDOW_SIZE,
    {
        proof {
            use_type_invariant(self);
        }
        self.window_size
    }
}

/// Normalising is idempotent: a value that has been clamped is left as it is
/// by a second clamping.
pub proof fn lemma_clamping_idempotent(quality: u32, window_size: u32)
    ensures
        clamped_quality(clamped_quality(quality)) == clamped_quality(quality),
        clamped_window_size(clamped_window_size(window_size)) == clamped_window_size(window_size),
{
}

/// Every quality at or above the maximum is used as the maximum, and every
/// window size at or beyond a limit is used as that limit.
pub proof fn lemma_clamping_saturates(quality: u32, window_size: u32)
    ensures
        quality >= MAX_QUALITY ==> clamped_quality(quality) == MAX_QUALITY,
        quality <= MAX_QUALITY ==> clamped_quality(quality) == quality,
        window_size <= MIN_WINDOW_SIZE ==> clamped_window_size(window_size) == MIN_WINDOW_SIZE,
        window_size >= MAX_WINDOW_SIZE ==> clamped_window_size(window_size) == MAX_WINDOW_SIZE,
        MIN_WINDOW_SIZE <= window_size <= MAX_WINDOW_SIZE ==> clamped_window_size(window_size)
            == window_size,
{
}

} // verus!

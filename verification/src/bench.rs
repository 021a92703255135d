//! The work that a throughput measurement times: compressing one input over
//! and over with fixed parameters. Reading the clock is left to the caller.

use crate::boundary::{buffer_view, compressed};
use crate::codec::compress_internal;
use crate::params::CompressionParameters;
use vstd::prelude::*;

verus! {

/// The quality that the benchmark compresses with.
pub const BENCHMARK_QUALITY: u32 = 6;

/// The window size that the benchmark compresses with.
pub const BENCHMARK_WINDOW_SIZE: u32 = 22;

/// What `benchmark_compression` returns: nothing where the input is absent or
/// no iteration is asked for, else the number of iterations in which the input
/// was compressed. The codec treats every iteration alike, so that number is
/// all of them or none.
pub open spec fn benchmark_outcome(input: Option<Seq<u8>>, iterations: u32) -> Option<u32> {
    match input {
        Some(bytes) => if iterations == 0 {
            None
        } else if compressed(bytes, BENCHMARK_QUALITY, BENCHMARK_WINDOW_SIZE) is Some {
            Some(iterations)
        } else {
            Some(0)
        },
        None => None,
    }
}

/// Compresses the input `iterations` times at `BENCHMARK_QUALITY` and
/// `BENCHMARK_WINDOW_SIZE`, discarding each result, and returns in how many of
/// the iterations the codec succeeded.
///
/// Returns `None`, having done nothing, where the input is absent or
/// `iterations` is zero. A caller that times this call and divides by
/// `iterations` has the average time of one compression.
pub fn benchmark_compression(input: Option<&[u8]>, iterations: u32) -> (completed: Option<u32>)
    ensures
        completed == benchmark_outcome(buffer_view(input), iterations),
{
    let buffer = match input {
        Some(buffer) => buffer,
        None => {
            return None;
        },
    };
    if iterations == 0 {
        return None;
    }
    let params = CompressionParameters::new(BENCHMARK_QUALITY, BENCHMARK_WINDOW_SIZE);
    let mut completed: u32 = 0;
    let mut round: u32 = 0;
    while round < iterations
        invariant
            round <= iterations,
            params@ == (BENCHMARK_QUALITY, BENCHMARK_WINDOW_SIZE),
            completed == (if compressed(buffer@, BENCHMARK_QUALITY, BENCHMARK_WINDOW_SIZE) is Some {
                round
            } else {
                0
            }),
        decreases iterations - round,
    {
        match compress_internal(buffer, &params) {
            Ok(_) => {
                completed += 1;
            },
            Err(_) => {},
        }
        round += 1;
    }
    Some(completed)
}

/// The benchmark does nothing, and says so, where it is given no input or
/// asked for no iteration.
pub proof fn lemma_benchmark_refuses(input: Option<Seq<u8>>, iterations: u32)
    ensures
        benchmark_outcome(input, iterations) is None <==> (input is None || iterations == 0),
{
}

} // verus!

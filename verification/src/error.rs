//! The ways in which an operation of the boundary layer can fail.

use vstd::prelude::*;

verus! {

/// Why an operation returned no result.
///
/// Across a foreign-call frontier all of these collapse into one failure
/// signal; on this side of it they are kept apart.
#[derive(Clone, Copy, Debug, PartialEq, Eq, Structural)]
pub enum BoundaryError {
    /// A required buffer or output slot was absent.
    NullPointer,
    /// The codec reported an error while transforming the stream.
    Codec,
    /// The decompressed bytes are not text: they are not valid UTF-8, or they
    /// hold a zero byte, which a terminated string cannot carry.
    Encoding,
}

} // verus!

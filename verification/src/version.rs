//! The version of this library, as a terminated string.

use vstd::prelude::*;

verus! {

/// The characters of the version string, terminator included.
pub open spec fn version_text() -> Seq<char> {
    seq!['1', '.', '0', '.', '0', '\0']
}

/// The version string. Its last character is a NUL, so that its bytes can be
/// handed out as they are where a terminated string is expected; it lives for
/// the whole run and is never released.
pub fn get_version() -> (version: &'static str)
    ensures
        version@ == version_text(),
{
    let version = "1.0.0\0";
    proof {
        reveal_strlit("1.0.0\0");
    }
    version
}

} // verus!

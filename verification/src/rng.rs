//! The one randomness source the spawn rules draw from.

use vstd::prelude::*;

verus! {

/// Relies on `rand::random_range` over a half-open `u64` range: the draw
/// lies in `[lo, hi)`. An empty range would panic, which the precondition
/// excludes; nothing more than the range is claimed of a random draw.
#[verifier::external_body]
pub(crate) fn random_in_range(lo: u64, hi: u64) -> (r: u64)
    requires
        lo < hi,
    ensures
        lo <= r < hi,
{
    rand::random_range(lo..hi)
}

} // verus!

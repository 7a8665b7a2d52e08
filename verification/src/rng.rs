//! The kernel's single source of randomness: spawn jitter, split velocities
//! and ship-type rewards all draw uniform integers through one wrapper.

use vstd::prelude::*;

verus! {

/// Relies on rand::Rng::gen_range over rand::thread_rng: for a non-empty
/// half-open range `lo..hi` it returns a value in that range and panics
/// only on an empty range, which the precondition excludes. Nothing more is
/// promised of a random draw.
#[verifier::external_body]
pub(crate) fn rand_in_range(lo: i64, hi: i64) -> (r: i64)
    requires
        lo < hi,
    ensures
        lo <= r < hi,
{
    rand::Rng::gen_range(&mut rand::thread_rng(), lo..hi)
}

} // verus!

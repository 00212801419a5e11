//! The library's single source of randomness.

use vstd::prelude::*;
use rand::Rng;

verus! {

/// Relies on `rand::Rng::gen_range` over the thread-local generator
/// (`rand::thread_rng`): the sample lies in the given half-open range,
/// which must be non-empty. Nothing more is assumed of the draw.
#[verifier::external_body]
pub(crate) fn rand_in_range(lo: u16, hi: u16) -> (r: u16)
    requires
        lo < hi,
    ensures
        lo <= r < hi,
{
    rand::thread_rng().gen_range(lo..hi)
}

} // verus!

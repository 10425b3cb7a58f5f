//! The crate's single source of randomness.

use vstd::prelude::*;

verus! {

/// Relies on rand's `Rng::gen_range`, whose documentation promises a
/// value in the given range and a panic only when the range is empty.
/// Nothing more is assumed of which value comes back.
#[verifier::external_body]
pub fn rand_below(bound: i32) -> (r: i32)
    requires
        bound > 0,
    ensures
        0 <= r < bound,
{
    rand::Rng::gen_range(&mut rand::thread_rng(), 0..bound)
}

} // verus!

//! The process random source, behind a single trusted wrapper.

use vstd::prelude::*;

verus! {

/// Relies on `rand::thread_rng` and `rand::Rng::gen_range`: a draw from the
/// range `0 .. n` lies below `n`. The call panics only on an empty range,
/// which `n > 0` rules out; nothing more can be promised of a random value.
#[verifier::external_body]
pub(crate) fn random_below(n: u64) -> (r: u64)
    requires
        n > 0,
    ensures
        r < n,
{
    rand::Rng::gen_range(&mut rand::thread_rng(), 0..n)
}

} // verus!

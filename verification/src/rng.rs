//! The engine's only source of randomness: thin trusted wrappers around
//! the `rand` crate. Nothing is assumed of a draw beyond its range, so
//! every caller is verified for every outcome the wrapper allows.

use vstd::prelude::*;

use rand::Rng;

verus! {

/// Relies on rand::Rng::random_range on `lo..=hi`: a uniform draw within
/// the inclusive range, which panics only when the range is empty.
#[verifier::external_body]
pub(crate) fn rand_range_inclusive(lo: u32, hi: u32) -> (r: u32)
    requires
        lo <= hi,
    ensures
        lo <= r <= hi,
{
    rand::rng().random_range(lo..=hi)
}

/// Relies on rand::Rng::random_range on `0..n`: a uniform draw below `n`,
/// which panics only when the range is empty.
#[verifier::external_body]
pub(crate) fn rand_below(n: u32) -> (r: u32)
    requires
        n >= 1,
    ensures
        r < n,
{
    rand::rng().random_range(0..n)
}

/// Relies on rand::Rng::random_ratio: a Bernoulli trial that is true with
/// probability `num / den`. It panics only when `den == 0` or `num > den`,
/// always fails for `num == 0` and always succeeds for `num == den`.
#[verifier::external_body]
pub(crate) fn rand_ratio(num: u32, den: u32) -> (r: bool)
    requires
        den >= 1,
        num <= den,
    ensures
        num == 0 ==> !r,
        num == den ==> r,
{
    rand::rng().random_ratio(num, den)
}

} // verus!

//! Random draws, taken from the `rand` crate's thread-local generator.
use vstd::prelude::*;
use rand::Rng;

verus! {

/// Calls `rand::thread_rng().gen_range(lo..hi)`: a number drawn from
/// `lo..hi`. The draw depends on chance; all that is claimed is that it lies
/// in the range. `gen_range` panics on an empty range, so `lo < hi` is required.
#[verifier::external_body]
pub(crate) fn random_range(lo: i32, hi: i32) -> (r: i32)
    requires
        lo < hi,
    ensures
        lo <= r < hi,
{
    rand::thread_rng().gen_range(lo..hi)
}

/// Calls `rand::thread_rng().gen_ratio(numerator, denominator)`: true with
/// probability `numerator / denominator`. The draw depends on chance; all
/// that is claimed is the source's two certain cases, a zero numerator never
/// gives true and a numerator equal to the denominator always does.
/// `gen_ratio` panics when `numerator > denominator` or `denominator == 0`.
#[verifier::external_body]
pub(crate) fn random_ratio(numerator: u32, denominator: u32) -> (r: bool)
    requires
        numerator <= denominator,
        denominator > 0,
    ensures
        numerator == 0 ==> !r,
        numerator == denominator ==> r,
{
    rand::thread_rng().gen_ratio(numerator, denominator)
}

} // verus!

//! Random draws. Each function states only what holds of every outcome.

use rand::seq::SliceRandom;
use rand::Rng;
use vstd::prelude::*;

verus! {

/// A number from `low` up to, not including, `high`.
///
/// Trusted: wraps `rand::Rng::gen_range` on the thread-local generator with
/// the half-open range `low..high`. The range must not be empty, since
/// `gen_range` panics on an empty range; the result lies in the range.
#[verifier::external_body]
pub(crate) fn random_in_range(low: usize, high: usize) -> (r: usize)
    requires
        low < high,
    ensures
        low <= r < high,
{
    rand::thread_rng().gen_range(low..high)
}

/// A coin that shows `true` with probability `numerator / denominator`.
///
/// Trusted: wraps `rand::Rng::gen_ratio`, which panics where the denominator
/// is zero or smaller than the numerator. It samples the distribution that
/// `rand::distributions::Bernoulli::from_ratio` builds, of which the crate
/// documents that the samples are always true where the numerator equals
/// the denominator and always false where the numerator is zero. Nothing
/// is claimed of the result for odds in between.
#[verifier::external_body]
pub(crate) fn random_ratio(numerator: u32, denominator: u32) -> (r: bool)
    requires
        denominator > 0,
        numerator <= denominator,
    ensures
        numerator == denominator ==> r,
        numerator == 0 ==> !r,
{
    rand::thread_rng().gen_ratio(numerator, denominator)
}

/// One of `items`, or nothing where there is none.
///
/// Trusted: wraps `rand::seq::SliceRandom::choose`, which returns `None` for
/// an empty slice and otherwise a reference to one of its elements.
#[verifier::external_body]
pub(crate) fn pick_one<'a, T>(items: &'a Vec<T>) -> (r: Option<&'a T>)
    ensures
        r is None <==> items.len() == 0,
        r matches Some(x) ==> exists|i: int| 0 <= i < items.len() && items@[i] == *x,
{
    items.choose(&mut rand::thread_rng())
}

/// Puts `items` in a random order.
///
/// Trusted: wraps `rand::seq::SliceRandom::shuffle`, which permutes the slice
/// in place by swapping elements.
#[verifier::external_body]
pub(crate) fn shuffle<T>(items: &mut Vec<T>)
    ensures
        final(items)@.to_multiset() == old(items)@.to_multiset(),
{
    items.shuffle(&mut rand::thread_rng())
}

} // verus!

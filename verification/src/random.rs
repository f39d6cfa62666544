//! The source of chance: a uniform draw from a range of integers.
//!
//! Nothing in this file is proved. Each item states what the `rand` crate
//! does, and the rest of the library relies on it.

use vstd::prelude::*;
use rand::distributions::{IndependentSample, Range};
use rand::ThreadRng;

verus! {

/// `rand::ThreadRng`, the generator that each thread has for itself.
#[verifier::external_type_specification]
#[verifier::external_body]
pub struct ExThreadRng(rand::ThreadRng);

/// `rand::distributions::Range`, a range of values to draw from.
#[verifier::external_type_specification]
#[verifier::external_body]
#[verifier::reject_recursive_types(X)]
pub struct ExRange<X>(rand::distributions::Range<X>);

/// The bounds that `range` was made with: the least value that a draw from
/// it can give, and the value that every draw stays below.
pub uninterp spec fn range_bounds(range: Range<u32>) -> (u32, u32);

/// `rand::thread_rng` hands out the calling thread's generator. Nothing is
/// claimed of it. On a machine that offers no entropy the first call panics.
pub assume_specification[ rand::thread_rng ]() -> (rng: ThreadRng);

/// `Range::new(low, high)` makes the range from `low`, included, to `high`,
/// excluded. It panics unless `low < high`, hence the precondition.
#[verifier::external_body]
pub(crate) fn range_between(low: u32, high: u32) -> (range: Range<u32>)
    requires
        low < high,
    ensures
        range_bounds(range) == (low, high),
{
    Range::new(low, high)
}

/// `Range::ind_sample` draws a value of the range with the given generator:
/// at least the range's low end and below its high end. Which value comes
/// is left open.
#[verifier::external_body]
pub(crate) fn draw(range: &Range<u32>, rng: &mut ThreadRng) -> (drawn: u32)
    ensures
        range_bounds(*range).0 <= drawn < range_bounds(*range).1,
{
    range.ind_sample(rng)
}

} // verus!

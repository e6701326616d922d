//! The random choices that katas make when they pose a puzzle.
//!
//! Nothing is known of a choice but the set it comes from, so what the katas
//! prove holds whichever value comes back.

use rand::seq::SliceRandom;
use rand::Rng;
use vstd::prelude::*;

verus! {

/// `Rng::gen_range`, on the thread's generator, returns some value of the
/// half-open range `low..high`; it panics on an empty range, which the
/// precondition leaves out.
#[verifier::external_body]
pub(crate) fn random_in(low: i32, high: i32) -> (r: i32)
    requires
        low < high,
    ensures
        low <= r < high,
{
    rand::thread_rng().gen_range(low..high)
}

/// `SliceRandom::choose`, on the thread's generator, returns a reference to
/// some element of the slice, or `None` if the slice is empty.
#[verifier::external_body]
pub(crate) fn pick<'a, T>(items: &'a [T]) -> (r: Option<&'a T>)
    ensures
        items@.len() == 0 ==> r is None,
        items@.len() > 0 ==> r is Some && items@.contains(*r.unwrap()),
{
    items.choose(&mut rand::thread_rng())
}

} // verus!

use vstd::prelude::*;

verus! {

/// Relies on `rand::Rng::random_range` over the thread-local generator of
/// `rand::rng()`: for a non-empty range `0..bound` it returns a value inside it.
#[verifier::external_body]
pub(crate) fn random_below(bound: u64) -> (r: u64)
    requires
        bound > 0,
    ensures
        r < bound,
{
    rand::Rng::random_range(&mut rand::rng(), 0..bound)
}

/// Relies on `rand::seq::IndexedRandom::choose`: on a non-empty slice it
/// returns a reference to one of its elements.
#[verifier::external_body]
pub(crate) fn choose_from<T>(items: &Vec<T>) -> (r: &T)
    requires
        items.len() > 0,
    ensures
        items@.contains(*r),
{
    rand::seq::IndexedRandom::choose(items.as_slice(), &mut rand::rng()).unwrap()
}

/// A uniform draw from the half-open interval `[lo, hi)`, or `lo` itself when
/// the interval is empty.
pub fn draw_in_i64(lo: i64, hi: i64) -> (r: i64)
    ensures
        lo < hi ==> lo <= r < hi,
        lo >= hi ==> r == lo,
{
    if lo >= hi {
        lo
    } else {
        let width = (hi as i128 - lo as i128) as u64;
        let offset = random_below(width);
        (lo as i128 + offset as i128) as i64
    }
}

/// A uniform draw from the half-open interval `[lo, hi)`, or `lo` itself when
/// the interval is empty.
pub fn draw_in_usize(lo: usize, hi: usize) -> (r: usize)
    ensures
        lo < hi ==> lo <= r < hi,
        lo >= hi ==> r == lo,
{
    if lo >= hi {
        lo
    } else {
        let offset = random_below((hi - lo) as u64);
        lo + offset as usize
    }
}

} // verus!

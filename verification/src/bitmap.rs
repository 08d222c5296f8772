//! The indexed bitmap of the `indexed-bitmap` crate, as seen by the
//! verified code: a finite set of `usize` positions whose bits are one.

use indexed_bitmap::IndexedBitmap;
use vstd::prelude::*;

verus! {

#[verifier::external_type_specification]
#[verifier::external_body]
pub struct ExIndexedBitmap(IndexedBitmap);

/// The positions whose bit is one.
pub uninterp spec fn bitmap_ones(b: IndexedBitmap) -> Set<usize>;

/// `IndexedBitmap::new`: every bit starts as zero.
#[verifier::external_body]
pub(crate) fn bitmap_new() -> (b: IndexedBitmap)
    ensures
        bitmap_ones(b) == Set::<usize>::empty(),
{
    IndexedBitmap::new()
}

/// `IndexedBitmap::bitset`: sets bit `n` to `set` and returns its
/// previous value. The crate computes `n + 1` and rounds up to a page of
/// 128 bits, so `n` stays clear of the top of `usize`.
#[verifier::external_body]
pub(crate) fn bitmap_set(b: &mut IndexedBitmap, n: usize, set: bool) -> (previous: bool)
    requires
        n < usize::MAX - 128,
    ensures
        previous == bitmap_ones(*old(b)).contains(n),
        bitmap_ones(*final(b)) == (if set {
            bitmap_ones(*old(b)).insert(n)
        } else {
            bitmap_ones(*old(b)).remove(n)
        }),
{
    b.bitset(n, set)
}

/// `IndexedBitmap::bitget`: whether bit `n` is one.
#[verifier::external_body]
pub(crate) fn bitmap_get(b: &IndexedBitmap, n: usize) -> (r: bool)
    ensures
        r == bitmap_ones(*b).contains(n),
{
    b.bitget(n)
}

/// `IndexedBitmap::lowest_zero`: the least position whose bit is zero.
#[verifier::external_body]
pub(crate) fn bitmap_lowest_zero(b: &IndexedBitmap) -> (r: usize)
    ensures
        !bitmap_ones(*b).contains(r),
        forall|i: usize| i < r ==> bitmap_ones(*b).contains(i),
{
    b.lowest_zero()
}

/// `IndexedBitmap::lowest_one`: the least position whose bit is one,
/// `None` when every bit is zero.
#[verifier::external_body]
pub(crate) fn bitmap_lowest_one(b: &IndexedBitmap) -> (r: Option<usize>)
    ensures
        match r {
            Some(i) => bitmap_ones(*b).contains(i) && forall|j: usize|
                j < i ==> !bitmap_ones(*b).contains(j),
            None => bitmap_ones(*b) == Set::<usize>::empty(),
        },
{
    b.lowest_one()
}

/// `IndexedBitmap::highest_one`: the greatest position whose bit is one,
/// `None` when every bit is zero.
#[verifier::external_body]
pub(crate) fn bitmap_highest_one(b: &IndexedBitmap) -> (r: Option<usize>)
    ensures
        match r {
            Some(i) => bitmap_ones(*b).contains(i) && forall|j: usize|
                j > i ==> !bitmap_ones(*b).contains(j),
            None => bitmap_ones(*b) == Set::<usize>::empty(),
        },
{
    b.highest_one()
}

/// `IndexedBitmap::next_one`: the least position after `n` whose bit is
/// one. The crate computes `n + 1`, so `n` is below the top of `usize`.
#[verifier::external_body]
pub(crate) fn bitmap_next_one(b: &IndexedBitmap, n: usize) -> (r: Option<usize>)
    requires
        n < usize::MAX,
    ensures
        match r {
            Some(i) => n < i && bitmap_ones(*b).contains(i) && forall|j: usize|
                n < j < i ==> !bitmap_ones(*b).contains(j),
            None => forall|j: usize| n < j ==> !bitmap_ones(*b).contains(j),
        },
{
    b.next_one(n)
}

/// `IndexedBitmap::shrink_to`: releases storage above `n` bits without
/// changing any bit. The crate computes `n + 127`.
#[verifier::external_body]
pub(crate) fn bitmap_shrink_to(b: &mut IndexedBitmap, n: usize)
    requires
        n <= usize::MAX - 127,
    ensures
        bitmap_ones(*final(b)) == bitmap_ones(*old(b)),
{
    b.shrink_to(n)
}

} // verus!

//! What an index selects from a slice, for every kind of index that this crate knows.

use crate::array_ref::{as_array, as_array_mut};
use crate::range::{ConstRange, ConstRangeInclusive, ConstRangeTo, ConstRangeToInclusive};
use crate::std_ranges::range_inclusive_is_empty;
use crate::usize::ConstUsize;
use core::ops::{Range, RangeFrom, RangeFull, RangeInclusive, RangeTo};
use vstd::prelude::*;

mod sealed;

verus! {

/// An index or a range that selects a part of a sequence of type `T`.
///
/// `get` and `get_mut` test the bounds and answer `None` where the index lies outside the
/// sequence. The other four methods leave the bounds to the caller: each of them requires
/// an index that lies within the sequence, so a call that cannot show this is rejected
/// when it is verified, and nothing is left to go wrong when it runs.
///
/// Through a part that was handed out for writing the sequence itself is written:
/// `replaces` says what the sequence holds afterwards.
pub trait SliceIndex<T: ?Sized>: sealed::Sealed {
    /// What the index selects: one element, an array or a slice.
    type Output: ?Sized;

    /// The index lies within `slice`.
    spec fn in_bounds(&self, slice: &T) -> bool;

    /// `out` is the part of `slice` that the index selects.
    spec fn selects(&self, slice: &T, out: &Self::Output) -> bool;

    /// `after` is `before` with the selected part replaced by `out`, and the rest as it was.
    spec fn replaces(&self, before: &T, out: &Self::Output, after: &T) -> bool;

    /// An index selects at most one part of a sequence.
    proof fn lemma_selects_one(&self, slice: &T, a: &Self::Output, b: &Self::Output)
        requires
            self.selects(slice, a),
            self.selects(slice, b),
        ensures
            a == b,
    ;

    /// The selected part, or `None` where the index lies outside `slice`.
    fn get(self, slice: &T) -> (r: Option<&Self::Output>)
        ensures
            r is Some <==> self.in_bounds(slice),
            r matches Some(out) ==> self.selects(slice, out),
    ;

    /// The selected part, for writing, or `None` where the index lies outside `slice`,
    /// which then stays as it is.
    fn get_mut(self, slice: &mut T) -> (r: Option<&mut Self::Output>)
        ensures
            r is Some <==> self.in_bounds(old(slice)),
            match r {
                Some(out) => self.selects(old(slice), out) && self.replaces(
                    old(slice),
                    final(out),
                    final(slice),
                ),
                None => &*final(slice) == &*old(slice),
            },
    ;

    /// The selected part. That the index lies within `slice` is for the caller to show.
    fn get_unchecked(self, slice: &T) -> (out: &Self::Output)
        requires
            self.in_bounds(slice),
        ensures
            self.selects(slice, out),
    ;

    /// The selected part, for writing. That the index lies within `slice` is for the
    /// caller to show.
    fn get_unchecked_mut(self, slice: &mut T) -> (out: &mut Self::Output)
        requires
            self.in_bounds(old(slice)),
        ensures
            self.selects(old(slice), out),
            self.replaces(old(slice), final(out), final(slice)),
    ;

    /// The selected part of a sequence that the index lies within.
    fn index(self, slice: &T) -> (out: &Self::Output)
        requires
            self.in_bounds(slice),
        ensures
            self.selects(slice, out),
    ;

    /// The selected part, for writing, of a sequence that the index lies within.
    fn index_mut(self, slice: &mut T) -> (out: &mut Self::Output)
        requires
            self.in_bounds(old(slice)),
        ensures
            self.selects(old(slice), out),
            self.replaces(old(slice), final(out), final(slice)),
    ;
}

/// Where an index lies within a sequence, `index` hands out the very part that `get`
/// hands out: `got` stands for what `get` returned, `out` for what `index` returned.
pub proof fn lemma_index_is_get<T: ?Sized, I: SliceIndex<T>>(
    index: I,
    slice: &T,
    got: Option<&I::Output>,
    out: &I::Output,
)
    requires
        index.in_bounds(slice),
        got is Some <==> index.in_bounds(slice),
        got matches Some(part) ==> index.selects(slice, part),
        index.selects(slice, out),
    ensures
        got == Some(out),
{
    index.lemma_selects_one(slice, got->0, out);
}

/// The element at position `N`.
impl<T, const N: usize> SliceIndex<[T]> for ConstUsize<N> {
    type Output = T;

    open spec fn in_bounds(&self, slice: &[T]) -> bool {
        N < slice@.len()
    }

    open spec fn selects(&self, slice: &[T], out: &T) -> bool {
        *out == slice@[N as int]
    }

    open spec fn replaces(&self, before: &[T], out: &T, after: &[T]) -> bool {
        after@ =~= before@.update(N as int, *out)
    }

    proof fn lemma_selects_one(&self, slice: &[T], a: &T, b: &T) {
    }

    #[inline]
    fn get(self, slice: &[T]) -> (r: Option<&T>)
        ensures
            N < slice@.len() ==> r is Some && *r.unwrap() == slice@[N as int],
            slice@.len() <= N ==> r is None,
    {
        slice.get(self.value())
    }

    #[inline]
    fn get_mut(self, slice: &mut [T]) -> (r: Option<&mut T>)
        ensures
            N < old(slice)@.len() ==> r is Some && *r.unwrap() == old(slice)@[N as int],
            old(slice)@.len() <= N ==> r is None && final(slice)@ == old(slice)@,
    {
        self.value().get_mut(slice)
    }

    #[inline]
    fn get_unchecked(self, slice: &[T]) -> (out: &T) {
        self.value().get_unchecked(slice)
    }

    #[inline]
    fn get_unchecked_mut(self, slice: &mut [T]) -> (out: &mut T) {
        self.value().get_unchecked_mut(slice)
    }

    #[inline]
    fn index(self, slice: &[T]) -> (out: &T) {
        self.value().index(slice)
    }

    #[inline]
    fn index_mut(self, slice: &mut [T]) -> (out: &mut T) {
        self.value().index_mut(slice)
    }
}

/// The `LEN` elements at the positions `MIN`, ..., `MAX - 1`, as an array.
impl<T, const MIN: usize, const MAX: usize, const LEN: usize> SliceIndex<[T]> for ConstRange<
    MIN,
    MAX,
    LEN,
> {
    type Output = [T; LEN];

    open spec fn in_bounds(&self, slice: &[T]) -> bool {
        MAX <= slice@.len()
    }

    open spec fn selects(&self, slice: &[T], out: &[T; LEN]) -> bool {
        out@ =~= slice@.subrange(MIN as int, MAX as int)
    }

    open spec fn replaces(&self, before: &[T], out: &[T; LEN], after: &[T]) -> bool {
        after@ =~= before@.subrange(0, MIN as int) + out@ + before@.subrange(
            MAX as int,
            before@.len() as int,
        )
    }

    proof fn lemma_selects_one(&self, slice: &[T], a: &[T; LEN], b: &[T; LEN]) {
        assert(a =~= b);
    }

    fn get(self, slice: &[T]) -> (r: Option<&[T; LEN]>)
        ensures
            MAX <= slice@.len() ==> r is Some && r.unwrap()@ == slice@.subrange(
                MIN as int,
                MAX as int,
            ),
            slice@.len() < MAX ==> r is None,
    {
        match self.range().get(slice) {
            Some(part) => Some(as_array(part)),
            None => None,
        }
    }

    fn get_mut(self, slice: &mut [T]) -> (r: Option<&mut [T; LEN]>)
        ensures
            MAX <= old(slice)@.len() ==> r is Some && r.unwrap()@ == old(slice)@.subrange(
                MIN as int,
                MAX as int,
            ),
            old(slice)@.len() < MAX ==> r is None && final(slice)@ == old(slice)@,
    {
        match self.range().get_mut(slice) {
            Some(part) => Some(as_array_mut(part)),
            None => None,
        }
    }

    fn get_unchecked(self, slice: &[T]) -> (out: &[T; LEN]) {
        as_array(self.range().get_unchecked(slice))
    }

    fn get_unchecked_mut(self, slice: &mut [T]) -> (out: &mut [T; LEN]) {
        as_array_mut(self.range().get_unchecked_mut(slice))
    }

    fn index(self, slice: &[T]) -> (out: &[T; LEN]) {
        as_array(self.range().index(slice))
    }

    fn index_mut(self, slice: &mut [T]) -> (out: &mut [T; LEN]) {
        as_array_mut(self.range().index_mut(slice))
    }
}

/// The `LEN` elements at the positions `MIN`, ..., `MAX`, as an array.
impl<T, const MIN: usize, const MAX: usize, const LEN: usize> SliceIndex<
    [T],
> for ConstRangeInclusive<MIN, MAX, LEN> {
    type Output = [T; LEN];

    open spec fn in_bounds(&self, slice: &[T]) -> bool {
        MAX < slice@.len()
    }

    open spec fn selects(&self, slice: &[T], out: &[T; LEN]) -> bool {
        out@ =~= slice@.subrange(MIN as int, MAX + 1)
    }

    open spec fn replaces(&self, before: &[T], out: &[T; LEN], after: &[T]) -> bool {
        after@ =~= before@.subrange(0, MIN as int) + out@ + before@.subrange(
            MAX + 1,
            before@.len() as int,
        )
    }

    proof fn lemma_selects_one(&self, slice: &[T], a: &[T; LEN], b: &[T; LEN]) {
        assert(a =~= b);
    }

    fn get(self, slice: &[T]) -> (r: Option<&[T; LEN]>)
        ensures
            MAX < slice@.len() ==> r is Some && r.unwrap()@ == slice@.subrange(
                MIN as int,
                MAX + 1,
            ),
            slice@.len() <= MAX ==> r is None,
    {
        match self.range().get(slice) {
            Some(part) => Some(as_array(part)),
            None => None,
        }
    }

    fn get_mut(self, slice: &mut [T]) -> (r: Option<&mut [T; LEN]>)
        ensures
            MAX < old(slice)@.len() ==> r is Some && r.unwrap()@ == old(slice)@.subrange(
                MIN as int,
                MAX + 1,
            ),
            old(slice)@.len() <= MAX ==> r is None && final(slice)@ == old(slice)@,
    {
        match self.range().get_mut(slice) {
            Some(part) => Some(as_array_mut(part)),
            None => None,
        }
    }

    fn get_unchecked(self, slice: &[T]) -> (out: &[T; LEN]) {
        as_array(self.range().get_unchecked(slice))
    }

    fn get_unchecked_mut(self, slice: &mut [T]) -> (out: &mut [T; LEN]) {
        as_array_mut(self.range().get_unchecked_mut(slice))
    }

    fn index(self, slice: &[T]) -> (out: &[T; LEN]) {
        as_array(self.range().index(slice))
    }

    fn index_mut(self, slice: &mut [T]) -> (out: &mut [T; LEN]) {
        as_array_mut(self.range().index_mut(slice))
    }
}

/// The first `MAX` elements, as an array.
impl<T, const MAX: usize> SliceIndex<[T]> for ConstRangeTo<MAX> {
    type Output = [T; MAX];

    open spec fn in_bounds(&self, slice: &[T]) -> bool {
        MAX <= slice@.len()
    }

    open spec fn selects(&self, slice: &[T], out: &[T; MAX]) -> bool {
        out@ =~= slice@.subrange(0, MAX as int)
    }

    open spec fn replaces(&self, before: &[T], out: &[T; MAX], after: &[T]) -> bool {
        after@ =~= out@ + before@.subrange(MAX as int, before@.len() as int)
    }

    proof fn lemma_selects_one(&self, slice: &[T], a: &[T; MAX], b: &[T; MAX]) {
        assert(a =~= b);
    }

    fn get(self, slice: &[T]) -> (r: Option<&[T; MAX]>)
        ensures
            MAX <= slice@.len() ==> r is Some && r.unwrap()@ == slice@.subrange(0, MAX as int),
            slice@.len() < MAX ==> r is None,
    {
        match self.range().get(slice) {
            Some(part) => Some(as_array(part)),
            None => None,
        }
    }

    fn get_mut(self, slice: &mut [T]) -> (r: Option<&mut [T; MAX]>)
        ensures
            MAX <= old(slice)@.len() ==> r is Some && r.unwrap()@ == old(slice)@.subrange(
                0,
                MAX as int,
            ),
            old(slice)@.len() < MAX ==> r is None && final(slice)@ == old(slice)@,
    {
        match self.range().get_mut(slice) {
            Some(part) => Some(as_array_mut(part)),
            None => None,
        }
    }

    fn get_unchecked(self, slice: &[T]) -> (out: &[T; MAX]) {
        as_array(self.range().get_unchecked(slice))
    }

    fn get_unchecked_mut(self, slice: &mut [T]) -> (out: &mut [T; MAX]) {
        as_array_mut(self.range().get_unchecked_mut(slice))
    }

    fn index(self, slice: &[T]) -> (out: &[T; MAX]) {
        as_array(self.range().index(slice))
    }

    fn index_mut(self, slice: &mut [T]) -> (out: &mut [T; MAX]) {
        as_array_mut(self.range().index_mut(slice))
    }
}

/// The `LEN` elements at the positions `0`, ..., `MAX`, as an array.
impl<T, const MAX: usize, const LEN: usize> SliceIndex<[T]> for ConstRangeToInclusive<MAX, LEN> {
    type Output = [T; LEN];

    open spec fn in_bounds(&self, slice: &[T]) -> bool {
        MAX < slice@.len()
    }

    open spec fn selects(&self, slice: &[T], out: &[T; LEN]) -> bool {
        out@ =~= slice@.subrange(0, MAX + 1)
    }

    open spec fn replaces(&self, before: &[T], out: &[T; LEN], after: &[T]) -> bool {
        after@ =~= out@ + before@.subrange(MAX + 1, before@.len() as int)
    }

    proof fn lemma_selects_one(&self, slice: &[T], a: &[T; LEN], b: &[T; LEN]) {
        assert(a =~= b);
    }

    fn get(self, slice: &[T]) -> (r: Option<&[T; LEN]>)
        ensures
            MAX < slice@.len() ==> r is Some && r.unwrap()@ == slice@.subrange(0, MAX + 1),
            slice@.len() <= MAX ==> r is None,
    {
        match (0..=self.range().end).get(slice) {
            Some(part) => Some(as_array(part)),
            None => None,
        }
    }

    fn get_mut(self, slice: &mut [T]) -> (r: Option<&mut [T; LEN]>)
        ensures
            MAX < old(slice)@.len() ==> r is Some && r.unwrap()@ == old(slice)@.subrange(
                0,
                MAX + 1,
            ),
            old(slice)@.len() <= MAX ==> r is None && final(slice)@ == old(slice)@,
    {
        match (0..=self.range().end).get_mut(slice) {
            Some(part) => Some(as_array_mut(part)),
            None => None,
        }
    }

    fn get_unchecked(self, slice: &[T]) -> (out: &[T; LEN]) {
        as_array((0..=self.range().end).get_unchecked(slice))
    }

    fn get_unchecked_mut(self, slice: &mut [T]) -> (out: &mut [T; LEN]) {
        as_array_mut((0..=self.range().end).get_unchecked_mut(slice))
    }

    fn index(self, slice: &[T]) -> (out: &[T; LEN]) {
        as_array((0..=self.range().end).index(slice))
    }

    fn index_mut(self, slice: &mut [T]) -> (out: &mut [T; LEN]) {
        as_array_mut((0..=self.range().end).index_mut(slice))
    }
}

/// The element at a position that is known only when the program runs.
impl<T> SliceIndex<[T]> for usize {
    type Output = T;

    open spec fn in_bounds(&self, slice: &[T]) -> bool {
        *self < slice@.len()
    }

    open spec fn selects(&self, slice: &[T], out: &T) -> bool {
        *out == slice@[*self as int]
    }

    open spec fn replaces(&self, before: &[T], out: &T, after: &[T]) -> bool {
        after@ =~= before@.update(*self as int, *out)
    }

    proof fn lemma_selects_one(&self, slice: &[T], a: &T, b: &T) {
    }

    #[inline]
    fn get(self, slice: &[T]) -> (r: Option<&T>) {
        slice.get(self)
    }

    #[inline]
    fn get_mut(self, slice: &mut [T]) -> (r: Option<&mut T>) {
        if self < slice.len() {
            Some(&mut slice[self])
        } else {
            None
        }
    }

    #[inline]
    fn get_unchecked(self, slice: &[T]) -> (out: &T) {
        &slice[self]
    }

    #[inline]
    fn get_unchecked_mut(self, slice: &mut [T]) -> (out: &mut T) {
        &mut slice[self]
    }

    #[inline]
    fn index(self, slice: &[T]) -> (out: &T) {
        &slice[self]
    }

    #[inline]
    fn index_mut(self, slice: &mut [T]) -> (out: &mut T) {
        &mut slice[self]
    }
}

/// The elements at the positions `start`, ..., `end - 1`, as a slice.
impl<T> SliceIndex<[T]> for Range<usize> {
    type Output = [T];

    open spec fn in_bounds(&self, slice: &[T]) -> bool {
        self.start <= self.end <= slice@.len()
    }

    open spec fn selects(&self, slice: &[T], out: &[T]) -> bool {
        out@ =~= slice@.subrange(self.start as int, self.end as int)
    }

    open spec fn replaces(&self, before: &[T], out: &[T], after: &[T]) -> bool {
        after@ =~= before@.subrange(0, self.start as int) + out@ + before@.subrange(
            self.end as int,
            before@.len() as int,
        )
    }

    proof fn lemma_selects_one(&self, slice: &[T], a: &[T], b: &[T]) {
        assert(a =~= b);
    }

    #[inline]
    fn get(self, slice: &[T]) -> (r: Option<&[T]>) {
        if self.start <= self.end && self.end <= slice.len() {
            Some(self.get_unchecked(slice))
        } else {
            None
        }
    }

    #[inline]
    fn get_mut(self, slice: &mut [T]) -> (r: Option<&mut [T]>) {
        if self.start <= self.end && self.end <= slice.len() {
            Some(self.get_unchecked_mut(slice))
        } else {
            None
        }
    }

    #[inline]
    fn get_unchecked(self, slice: &[T]) -> (out: &[T]) {
        let (front, _) = slice.split_at(self.end);
        let (_, part) = front.split_at(self.start);
        part
    }

    #[inline]
    fn get_unchecked_mut(self, slice: &mut [T]) -> (out: &mut [T]) {
        let (front, _) = slice.split_at_mut(self.end);
        let (_, part) = front.split_at_mut(self.start);
        part
    }

    #[inline]
    fn index(self, slice: &[T]) -> (out: &[T]) {
        &slice[self]
    }

    #[inline]
    fn index_mut(self, slice: &mut [T]) -> (out: &mut [T]) {
        self.get_unchecked_mut(slice)
    }
}

/// The elements from the position `start` on, as a slice.
impl<T> SliceIndex<[T]> for RangeFrom<usize> {
    type Output = [T];

    open spec fn in_bounds(&self, slice: &[T]) -> bool {
        self.start <= slice@.len()
    }

    open spec fn selects(&self, slice: &[T], out: &[T]) -> bool {
        out@ =~= slice@.subrange(self.start as int, slice@.len() as int)
    }

    open spec fn replaces(&self, before: &[T], out: &[T], after: &[T]) -> bool {
        after@ =~= before@.subrange(0, self.start as int) + out@
    }

    proof fn lemma_selects_one(&self, slice: &[T], a: &[T], b: &[T]) {
        assert(a =~= b);
    }

    #[inline]
    fn get(self, slice: &[T]) -> (r: Option<&[T]>) {
        (self.start..slice.len()).get(slice)
    }

    #[inline]
    fn get_mut(self, slice: &mut [T]) -> (r: Option<&mut [T]>) {
        (self.start..slice.len()).get_mut(slice)
    }

    #[inline]
    fn get_unchecked(self, slice: &[T]) -> (out: &[T]) {
        (self.start..slice.len()).get_unchecked(slice)
    }

    #[inline]
    fn get_unchecked_mut(self, slice: &mut [T]) -> (out: &mut [T]) {
        (self.start..slice.len()).get_unchecked_mut(slice)
    }

    #[inline]
    fn index(self, slice: &[T]) -> (out: &[T]) {
        (self.start..slice.len()).index(slice)
    }

    #[inline]
    fn index_mut(self, slice: &mut [T]) -> (out: &mut [T]) {
        (self.start..slice.len()).index_mut(slice)
    }
}

/// All elements.
impl<T> SliceIndex<[T]> for RangeFull {
    type Output = [T];

    open spec fn in_bounds(&self, slice: &[T]) -> bool {
        true
    }

    open spec fn selects(&self, slice: &[T], out: &[T]) -> bool {
        out@ =~= slice@
    }

    open spec fn replaces(&self, before: &[T], out: &[T], after: &[T]) -> bool {
        after@ =~= out@
    }

    proof fn lemma_selects_one(&self, slice: &[T], a: &[T], b: &[T]) {
        assert(a =~= b);
    }

    #[inline]
    fn get(self, slice: &[T]) -> (r: Option<&[T]>) {
        Some(slice)
    }

    #[inline]
    fn get_mut(self, slice: &mut [T]) -> (r: Option<&mut [T]>) {
        Some(slice)
    }

    #[inline]
    fn get_unchecked(self, slice: &[T]) -> (out: &[T]) {
        slice
    }

    #[inline]
    fn get_unchecked_mut(self, slice: &mut [T]) -> (out: &mut [T]) {
        slice
    }

    #[inline]
    fn index(self, slice: &[T]) -> (out: &[T]) {
        slice
    }

    #[inline]
    fn index_mut(self, slice: &mut [T]) -> (out: &mut [T]) {
        slice
    }
}

/// A slice has no more elements than `usize` can count.
proof fn lemma_len_fits<T>(slice: &[T])
    ensures
        slice@.len() <= usize::MAX,
{
    assert(slice@.len() == slice.len());
}

/// Where the range that `range` stands for starts, counted in elements: at its lower bound,
/// or just behind its upper bound once it is exhausted.
pub open spec fn inclusive_start(range: RangeInclusive<usize>) -> int {
    if range@.exhausted && range@.start <= range@.end {
        range@.end + 1
    } else {
        range@.start as int
    }
}

/// The half-open range that selects what the closed range `range` selects. A range that
/// holds no position becomes the empty range just behind its upper bound.
pub fn into_slice_range(range: RangeInclusive<usize>) -> (r: Range<usize>)
    requires
        range@.end < usize::MAX,
    ensures
        r.end == range@.end + 1,
        r.start == if range@.exhausted || range@.start > range@.end {
            range@.end + 1
        } else {
            range@.start as int
        },
{
    let exclusive_end = *range.end() + 1;
    let start = if range_inclusive_is_empty(&range) {
        exclusive_end
    } else {
        *range.start()
    };
    start..exclusive_end
}

/// The half-open range that a closed range stands for when it selects from a slice, or
/// `None` where its upper bound is the largest `usize`, which no slice reaches.
fn checked_slice_range(range: RangeInclusive<usize>) -> (r: Option<Range<usize>>)
    ensures
        r is Some <==> range@.end < usize::MAX,
        r matches Some(half_open) ==> half_open.start == inclusive_start(range) && half_open.end
            == range@.end + 1,
{
    let start = *range.start();
    let end = *range.end();
    if end == usize::MAX {
        None
    } else if start <= end && range_inclusive_is_empty(&range) {
        Some(end + 1..end + 1)
    } else {
        Some(start..end + 1)
    }
}

/// The elements at the positions `start`, ..., `end`, as a slice. An exhausted range selects
/// the empty slice just behind `end`.
impl<T> SliceIndex<[T]> for RangeInclusive<usize> {
    type Output = [T];

    open spec fn in_bounds(&self, slice: &[T]) -> bool {
        inclusive_start(*self) <= self@.end + 1 <= slice@.len()
    }

    open spec fn selects(&self, slice: &[T], out: &[T]) -> bool {
        out@ =~= slice@.subrange(inclusive_start(*self), self@.end + 1)
    }

    open spec fn replaces(&self, before: &[T], out: &[T], after: &[T]) -> bool {
        after@ =~= before@.subrange(0, inclusive_start(*self)) + out@ + before@.subrange(
            self@.end + 1,
            before@.len() as int,
        )
    }

    proof fn lemma_selects_one(&self, slice: &[T], a: &[T], b: &[T]) {
        assert(a =~= b);
    }

    #[inline]
    fn get(self, slice: &[T]) -> (r: Option<&[T]>) {
        proof {
            lemma_len_fits(slice);
        }
        match checked_slice_range(self) {
            Some(half_open) => half_open.get(slice),
            None => None,
        }
    }

    #[inline]
    fn get_mut(self, slice: &mut [T]) -> (r: Option<&mut [T]>) {
        proof {
            lemma_len_fits(slice);
        }
        match checked_slice_range(self) {
            Some(half_open) => half_open.get_mut(slice),
            None => None,
        }
    }

    #[inline]
    fn get_unchecked(self, slice: &[T]) -> (out: &[T]) {
        proof {
            lemma_len_fits(slice);
        }
        into_slice_range(self).get_unchecked(slice)
    }

    #[inline]
    fn get_unchecked_mut(self, slice: &mut [T]) -> (out: &mut [T]) {
        proof {
            lemma_len_fits(slice);
        }
        into_slice_range(self).get_unchecked_mut(slice)
    }

    #[inline]
    fn index(self, slice: &[T]) -> (out: &[T]) {
        proof {
            lemma_len_fits(slice);
        }
        into_slice_range(self).index(slice)
    }

    #[inline]
    fn index_mut(self, slice: &mut [T]) -> (out: &mut [T]) {
        proof {
            lemma_len_fits(slice);
        }
        into_slice_range(self).index_mut(slice)
    }
}

/// The first `end` elements, as a slice.
impl<T> SliceIndex<[T]> for RangeTo<usize> {
    type Output = [T];

    open spec fn in_bounds(&self, slice: &[T]) -> bool {
        self.end <= slice@.len()
    }

    open spec fn selects(&self, slice: &[T], out: &[T]) -> bool {
        out@ =~= slice@.subrange(0, self.end as int)
    }

    open spec fn replaces(&self, before: &[T], out: &[T], after: &[T]) -> bool {
        after@ =~= out@ + before@.subrange(self.end as int, before@.len() as int)
    }

    proof fn lemma_selects_one(&self, slice: &[T], a: &[T], b: &[T]) {
        assert(a =~= b);
    }

    #[inline]
    fn get(self, slice: &[T]) -> (r: Option<&[T]>) {
        (0..self.end).get(slice)
    }

    #[inline]
    fn get_mut(self, slice: &mut [T]) -> (r: Option<&mut [T]>) {
        (0..self.end).get_mut(slice)
    }

    #[inline]
    fn get_unchecked(self, slice: &[T]) -> (out: &[T]) {
        (0..self.end).get_unchecked(slice)
    }

    #[inline]
    fn get_unchecked_mut(self, slice: &mut [T]) -> (out: &mut [T]) {
        (0..self.end).get_unchecked_mut(slice)
    }

    #[inline]
    fn index(self, slice: &[T]) -> (out: &[T]) {
        (0..self.end).index(slice)
    }

    #[inline]
    fn index_mut(self, slice: &mut [T]) -> (out: &mut [T]) {
        (0..self.end).index_mut(slice)
    }
}

} // verus!

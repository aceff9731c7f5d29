//! Positions at which a sequence is split in two.

use crate::array_ref::as_array_mut;
use crate::range::ConstRangeTo;
use crate::slice_index::SliceIndex;
use crate::usize::ConstUsize;
use core::ops::{RangeFrom, RangeTo};
use vstd::prelude::*;

mod sealed;

verus! {

/// A position at which a sequence of type `T` can be split in two: the part before the
/// position, selected by `RangeTo`, and the part from the position on, selected by
/// `RangeFrom`.
pub trait SliceIntegerIndex<T: ?Sized>: sealed::Sealed {
    /// The range that selects the first part.
    type RangeTo: SliceIndex<T>;

    /// The range that selects the second part.
    type RangeFrom: SliceIndex<T>;

    /// The position, counted in elements from the start.
    spec fn position(self) -> usize;

    /// The range that selects what lies before the position.
    spec fn spec_range_to(self) -> Self::RangeTo;

    /// The range that selects what lies at the position and behind it.
    spec fn spec_range_from(self) -> Self::RangeFrom;

    /// `whole` is `head` followed by `tail`.
    spec fn joins(
        head: &<Self::RangeTo as SliceIndex<T>>::Output,
        tail: &<Self::RangeFrom as SliceIndex<T>>::Output,
        whole: &T,
    ) -> bool;

    /// Where the part before the position lies within `slice`, so does the part behind it.
    proof fn lemma_tail_in_bounds(self, slice: &T)
        requires
            self.spec_range_to().in_bounds(slice),
        ensures
            self.spec_range_from().in_bounds(slice),
    ;

    /// The part before the position and the part behind it make up `slice`.
    proof fn lemma_parts_join(
        self,
        slice: &T,
        head: &<Self::RangeTo as SliceIndex<T>>::Output,
        tail: &<Self::RangeFrom as SliceIndex<T>>::Output,
    )
        requires
            self.spec_range_to().in_bounds(slice),
            self.spec_range_to().selects(slice, head),
            self.spec_range_from().selects(slice, tail),
        ensures
            Self::joins(head, tail, slice),
    ;

    /// The position as a run-time number.
    fn as_usize(self) -> (n: usize)
        ensures
            n == self.position(),
    ;

    /// The range that selects what lies before the position.
    fn range_to(self) -> (r: Self::RangeTo)
        ensures
            r == self.spec_range_to(),
    ;

    /// The range that selects what lies at the position and behind it.
    fn range_from(self) -> (r: Self::RangeFrom)
        ensures
            r == self.spec_range_from(),
    ;

    /// Both parts of `slice` at once, each of them for writing. The parts do not overlap,
    /// and what is written to them is written to `slice`: afterwards `slice` is the first
    /// part followed by the second.
    fn split_mut(self, slice: &mut T) -> (parts: (
        &mut <Self::RangeTo as SliceIndex<T>>::Output,
        &mut <Self::RangeFrom as SliceIndex<T>>::Output,
    ))
        requires
            self.spec_range_to().in_bounds(old(slice)),
        ensures
            self.spec_range_to().selects(old(slice), parts.0),
            self.spec_range_from().selects(old(slice), parts.1),
            Self::joins(final(parts.0), final(parts.1), final(slice)),
    ;
}

/// A split at the position `N`: the first part is an array of `N` elements.
impl<T, const N: usize> SliceIntegerIndex<[T]> for ConstUsize<N> {
    type RangeTo = ConstRangeTo<N>;

    type RangeFrom = RangeFrom<usize>;

    open spec fn position(self) -> usize {
        N
    }

    open spec fn spec_range_to(self) -> ConstRangeTo<N> {
        ConstRangeTo()
    }

    open spec fn spec_range_from(self) -> RangeFrom<usize> {
        RangeFrom { start: N }
    }

    open spec fn joins(head: &[T; N], tail: &[T], whole: &[T]) -> bool {
        whole@ =~= head@ + tail@
    }

    proof fn lemma_tail_in_bounds(self, slice: &[T]) {
    }

    proof fn lemma_parts_join(self, slice: &[T], head: &[T; N], tail: &[T]) {
    }

    fn as_usize(self) -> (n: usize) {
        N
    }

    fn range_to(self) -> (r: ConstRangeTo<N>) {
        ConstRangeTo::new()
    }

    fn range_from(self) -> (r: RangeFrom<usize>) {
        N..
    }

    fn split_mut(self, slice: &mut [T]) -> (parts: (&mut [T; N], &mut [T])) {
        let (head, tail) = slice.split_at_mut(N);
        (as_array_mut(head), tail)
    }
}

/// A split at a position that is known only when the program runs.
impl<T> SliceIntegerIndex<[T]> for usize {
    type RangeTo = RangeTo<usize>;

    type RangeFrom = RangeFrom<usize>;

    open spec fn position(self) -> usize {
        self
    }

    open spec fn spec_range_to(self) -> RangeTo<usize> {
        RangeTo { end: self }
    }

    open spec fn spec_range_from(self) -> RangeFrom<usize> {
        RangeFrom { start: self }
    }

    open spec fn joins(head: &[T], tail: &[T], whole: &[T]) -> bool {
        whole@ =~= head@ + tail@
    }

    proof fn lemma_tail_in_bounds(self, slice: &[T]) {
    }

    proof fn lemma_parts_join(self, slice: &[T], head: &[T], tail: &[T]) {
    }

    fn as_usize(self) -> (n: usize) {
        self
    }

    fn range_to(self) -> (r: RangeTo<usize>) {
        ..self
    }

    fn range_from(self) -> (r: RangeFrom<usize>) {
        self..
    }

    fn split_mut(self, slice: &mut [T]) -> (parts: (&mut [T], &mut [T])) {
        slice.split_at_mut(self)
    }
}

/// A sequence split at a position `N` that lies within it: the first part has `N`
/// elements, the second part has the others, and the first followed by the second is the
/// sequence. `head` and `tail` stand for what `csplit_at` returned.
pub proof fn lemma_split_at_const<T, const N: usize>(slice: &[T], head: &[T; N], tail: &[T])
    requires
        N <= slice@.len(),
        <ConstUsize<N> as SliceIntegerIndex<[T]>>::spec_range_to(ConstUsize()).selects(slice, head),
        <ConstUsize<N> as SliceIntegerIndex<[T]>>::spec_range_from(ConstUsize()).selects(
            slice,
            tail,
        ),
    ensures
        head@.len() == N,
        tail@.len() == slice@.len() - N,
        head@ + tail@ == slice@,
        forall|i: int| 0 <= i < N ==> head@[i] == slice@[i],
        forall|i: int| 0 <= i < slice@.len() - N ==> tail@[i] == slice@[N + i],
{
}

/// The same for a position that is known only when the program runs.
pub proof fn lemma_split_at<T>(n: usize, slice: &[T], head: &[T], tail: &[T])
    requires
        n <= slice@.len(),
        <usize as SliceIntegerIndex<[T]>>::spec_range_to(n).selects(slice, head),
        <usize as SliceIntegerIndex<[T]>>::spec_range_from(n).selects(slice, tail),
    ensures
        head@.len() == n,
        tail@.len() == slice@.len() - n,
        head@ + tail@ == slice@,
        forall|i: int| 0 <= i < n ==> head@[i] == slice@[i],
        forall|i: int| 0 <= i < slice@.len() - n ==> tail@[i] == slice@[n + i],
{
}

} // verus!

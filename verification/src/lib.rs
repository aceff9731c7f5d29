//! Indices and ranges whose bounds are part of their type.
//!
//! An index descriptor carries its bounds as constants: `ConstUsize<N>` is the position
//! `N`, `ConstRange<MIN, MAX, LEN>` the range `[MIN, MAX)`, and so on. A range descriptor
//! selects an array of `LEN` elements, not a slice, and `LEN` is tied to the bounds when
//! the descriptor is made. `ConstGet` offers the access as methods of a slice.

mod array_ref;
mod range;
mod sealed;
mod slice_index;
mod slice_integer_index;
mod std_ranges;
mod usize;

pub use crate::usize::ConstUsize;
pub use range::{ConstRange, ConstRangeInclusive, ConstRangeTo, ConstRangeToInclusive};
pub use slice_index::{inclusive_start, into_slice_range, lemma_index_is_get, SliceIndex};
pub use slice_integer_index::{lemma_split_at, lemma_split_at_const, SliceIntegerIndex};

use vstd::prelude::*;

verus! {

/// Indexing by the index types of this crate, as methods of the sequence itself.
pub trait ConstGet<T>: sealed::Sealed {
    /// The sequence as the slice that the index types select from.
    spec fn as_slice(&self) -> &[T];

    /// The part that `index` selects, or `None` where `index` lies outside the sequence.
    fn cget<Idx: SliceIndex<[T]>>(&self, index: Idx) -> (r: Option<&Idx::Output>)
        ensures
            r is Some <==> index.in_bounds(self.as_slice()),
            r matches Some(out) ==> index.selects(self.as_slice(), out),
    ;

    /// The part that `index` selects, writable, or `None` where `index` lies outside the
    /// sequence, which then stays as it is.
    fn cget_mut<Idx: SliceIndex<[T]>>(&mut self, index: Idx) -> (r: Option<&mut Idx::Output>)
        ensures
            r is Some <==> index.in_bounds(old(self).as_slice()),
            match r {
                Some(out) => index.selects(old(self).as_slice(), out) && index.replaces(
                    old(self).as_slice(),
                    final(out),
                    final(self).as_slice(),
                ),
                None => final(self).as_slice() == old(self).as_slice(),
            },
    ;

    /// The part that `index` selects. That `index` lies within the sequence is for the
    /// caller to show.
    fn cget_unchecked<Idx: SliceIndex<[T]>>(&self, index: Idx) -> (out: &Idx::Output)
        requires
            index.in_bounds(self.as_slice()),
        ensures
            index.selects(self.as_slice(), out),
    ;

    /// The part that `index` selects, writable. That `index` lies within the sequence is
    /// for the caller to show.
    fn cget_unchecked_mut<Idx: SliceIndex<[T]>>(&mut self, index: Idx) -> (out: &mut Idx::Output)
        requires
            index.in_bounds(old(self).as_slice()),
        ensures
            index.selects(old(self).as_slice(), out),
            index.replaces(old(self).as_slice(), final(out), final(self).as_slice()),
    ;

    /// The part that `index` selects, where `index` lies within the sequence.
    fn cindex<Idx: SliceIndex<[T]>>(&self, index: Idx) -> (out: &Idx::Output)
        requires
            index.in_bounds(self.as_slice()),
        ensures
            index.selects(self.as_slice(), out),
    ;

    /// The part that `index` selects, writable, where `index` lies within the sequence.
    fn cindex_mut<Idx: SliceIndex<[T]>>(&mut self, index: Idx) -> (out: &mut Idx::Output)
        requires
            index.in_bounds(old(self).as_slice()),
        ensures
            index.selects(old(self).as_slice(), out),
            index.replaces(old(self).as_slice(), final(out), final(self).as_slice()),
    ;

    /// The sequence in two parts: what lies before `index`, and the rest. The first part
    /// has to lie within the sequence: `index` is at most its length.
    fn csplit_at<Idx: SliceIntegerIndex<[T]> + Copy>(&self, index: Idx) -> (parts: (
        &<Idx::RangeTo as SliceIndex<[T]>>::Output,
        &<Idx::RangeFrom as SliceIndex<[T]>>::Output,
    ))
        requires
            index.spec_range_to().in_bounds(self.as_slice()),
        ensures
            index.spec_range_to().selects(self.as_slice(), parts.0),
            index.spec_range_from().selects(self.as_slice(), parts.1),
            Idx::joins(parts.0, parts.1, self.as_slice()),
    ;

    /// The sequence in two parts that do not overlap, each of them writable: what lies
    /// before `index`, and the rest. The first part has to lie within the sequence. What is
    /// written to the parts is written to the sequence: afterwards it is the first part
    /// followed by the second.
    fn csplit_at_mut<Idx: SliceIntegerIndex<[T]> + Copy>(&mut self, index: Idx) -> (parts: (
        &mut <Idx::RangeTo as SliceIndex<[T]>>::Output,
        &mut <Idx::RangeFrom as SliceIndex<[T]>>::Output,
    ))
        requires
            index.spec_range_to().in_bounds(old(self).as_slice()),
        ensures
            index.spec_range_to().selects(old(self).as_slice(), parts.0),
            index.spec_range_from().selects(old(self).as_slice(), parts.1),
            Idx::joins(final(parts.0), final(parts.1), final(self).as_slice()),
    ;
}

impl<T> ConstGet<T> for [T] {
    open spec fn as_slice(&self) -> &[T] {
        self
    }

    #[inline]
    fn cget<Idx: SliceIndex<[T]>>(&self, index: Idx) -> (r: Option<&Idx::Output>) {
        index.get(self)
    }

    #[inline]
    fn cget_mut<Idx: SliceIndex<[T]>>(&mut self, index: Idx) -> (r: Option<&mut Idx::Output>) {
        index.get_mut(self)
    }

    #[inline]
    fn cget_unchecked<Idx: SliceIndex<[T]>>(&self, index: Idx) -> (out: &Idx::Output) {
        index.get_unchecked(self)
    }

    #[inline]
    fn cget_unchecked_mut<Idx: SliceIndex<[T]>>(&mut self, index: Idx) -> (out: &mut Idx::Output) {
        index.get_unchecked_mut(self)
    }

    #[inline]
    fn cindex<Idx: SliceIndex<[T]>>(&self, index: Idx) -> (out: &Idx::Output) {
        index.index(self)
    }

    #[inline]
    fn cindex_mut<Idx: SliceIndex<[T]>>(&mut self, index: Idx) -> (out: &mut Idx::Output) {
        index.index_mut(self)
    }

    fn csplit_at<Idx: SliceIntegerIndex<[T]> + Copy>(&self, index: Idx) -> (parts: (
        &<Idx::RangeTo as SliceIndex<[T]>>::Output,
        &<Idx::RangeFrom as SliceIndex<[T]>>::Output,
    )) {
        let head = self.cindex(index.range_to());
        proof {
            index.lemma_tail_in_bounds(self);
        }
        let tail = self.cget_unchecked(index.range_from());
        proof {
            index.lemma_parts_join(self, head, tail);
        }
        (head, tail)
    }

    fn csplit_at_mut<Idx: SliceIntegerIndex<[T]> + Copy>(&mut self, index: Idx) -> (parts: (
        &mut <Idx::RangeTo as SliceIndex<[T]>>::Output,
        &mut <Idx::RangeFrom as SliceIndex<[T]>>::Output,
    )) {
        index.split_mut(self)
    }
}

} // verus!

//! Closes `SliceIndex` to other crates.

use crate::range::{ConstRange, ConstRangeInclusive, ConstRangeTo, ConstRangeToInclusive};
use crate::usize::ConstUsize;
use core::ops::{Range, RangeFrom, RangeFull, RangeInclusive, RangeTo, RangeToInclusive};
use vstd::prelude::*;

verus! {

/// Implemented only in this crate.
pub trait Sealed {

}

impl<const N: usize> Sealed for ConstUsize<N> {

}

impl<const MIN: usize, const MAX: usize, const LEN: usize> Sealed for ConstRange<MIN, MAX, LEN> {

}

impl<const MIN: usize, const MAX: usize, const LEN: usize> Sealed for ConstRangeInclusive<
    MIN,
    MAX,
    LEN,
> {

}

impl<const MAX: usize> Sealed for ConstRangeTo<MAX> {

}

impl<const MAX: usize, const LEN: usize> Sealed for ConstRangeToInclusive<MAX, LEN> {

}

impl Sealed for usize {

}

impl Sealed for Range<usize> {

}

impl Sealed for RangeFrom<usize> {

}

impl Sealed for RangeFull {

}

impl Sealed for RangeInclusive<usize> {

}

impl Sealed for RangeTo<usize> {

}

impl Sealed for RangeToInclusive<usize> {

}

} // verus!

//! The four shapes of range whose bounds are constants of the type.
//!
//! Three of them name the length of their output beside their bounds. Such a descriptor
//! can only be made by `new`, which asks for a length that fits the bounds, so every
//! descriptor that exists is consistent, and every access can rely on it.

use core::ops::{Range, RangeInclusive, RangeTo, RangeToInclusive};
use vstd::prelude::*;

verus! {

/// The half-open range `[MIN, MAX)`, which selects `LEN` elements.
pub struct ConstRange<const MIN: usize, const MAX: usize, const LEN: usize>(());

impl<const MIN: usize, const MAX: usize, const LEN: usize> ConstRange<MIN, MAX, LEN> {
    /// The bounds are in order and `LEN` is the number of positions between them.
    pub open spec fn consistent() -> bool {
        MIN <= MAX && LEN == MAX - MIN
    }

    /// What holds of every descriptor that exists.
    #[verifier::type_invariant]
    spec fn well_formed(self) -> bool {
        Self::consistent()
    }

    /// Makes the descriptor. That the length fits the bounds is for the caller to show.
    #[inline]
    pub fn new() -> (r: Self)
        requires
            Self::consistent(),
    {
        Self(())
    }

    /// The run-time range of this descriptor. Every descriptor that exists is consistent.
    #[inline]
    pub fn range(&self) -> (r: Range<usize>)
        ensures
            Self::consistent(),
            r.start == MIN,
            r.end == MAX,
            r.end - r.start == LEN,
    {
        proof {
            use_type_invariant(self);
        }
        MIN..MAX
    }
}

/// The closed range `[MIN, MAX]`, which selects `LEN` elements.
pub struct ConstRangeInclusive<const MIN: usize, const MAX: usize, const LEN: usize>(());

impl<const MIN: usize, const MAX: usize, const LEN: usize> ConstRangeInclusive<MIN, MAX, LEN> {
    /// The bounds are in order and `LEN` counts the positions from `MIN` to `MAX`, both
    /// included.
    pub open spec fn consistent() -> bool {
        MIN <= MAX && LEN == MAX - MIN + 1
    }

    /// What holds of every descriptor that exists.
    #[verifier::type_invariant]
    spec fn well_formed(self) -> bool {
        Self::consistent()
    }

    /// Makes the descriptor. That the length fits the bounds is for the caller to show.
    #[inline]
    pub fn new() -> (r: Self)
        requires
            Self::consistent(),
    {
        Self(())
    }

    /// The run-time range of this descriptor. Every descriptor that exists is consistent.
    #[inline]
    pub fn range(&self) -> (r: RangeInclusive<usize>)
        ensures
            Self::consistent(),
            r@.start == MIN,
            r@.end == MAX,
            !r@.exhausted,
            r@.end - r@.start + 1 == LEN,
    {
        proof {
            use_type_invariant(self);
        }
        MIN..=MAX
    }
}

/// The prefix `[0, MAX)`, which selects `MAX` elements.
pub struct ConstRangeTo<const MAX: usize>();

impl<const MAX: usize> ConstRangeTo<MAX> {
    /// Makes the descriptor.
    #[inline]
    pub fn new() -> (r: Self)
        ensures
            r == Self(),
    {
        Self()
    }

    /// The run-time range of this descriptor.
    #[inline]
    pub fn range(&self) -> (r: RangeTo<usize>)
        ensures
            r.end == MAX,
    {
        ..MAX
    }
}

impl<const MAX: usize> Default for ConstRangeTo<MAX> {
    fn default() -> (r: Self)
        ensures
            r == Self(),
    {
        Self::new()
    }
}

/// The closed prefix `[0, MAX]`, which selects `LEN` elements.
pub struct ConstRangeToInclusive<const MAX: usize, const LEN: usize>(());

impl<const MAX: usize, const LEN: usize> ConstRangeToInclusive<MAX, LEN> {
    /// `LEN` counts the positions from `0` to `MAX`, both included.
    pub open spec fn consistent() -> bool {
        LEN == MAX + 1
    }

    /// What holds of every descriptor that exists.
    #[verifier::type_invariant]
    spec fn well_formed(self) -> bool {
        Self::consistent()
    }

    /// Makes the descriptor. That the length fits the bounds is for the caller to show.
    #[inline]
    pub fn new() -> (r: Self)
        requires
            Self::consistent(),
    {
        Self(())
    }

    /// The run-time range of this descriptor. Every descriptor that exists is consistent.
    #[inline]
    pub fn range(&self) -> (r: RangeToInclusive<usize>)
        ensures
            Self::consistent(),
            r.end == MAX,
            r.end + 1 == LEN,
    {
        proof {
            use_type_invariant(self);
        }
        ..=MAX
    }
}

} // verus!

//! The range types of std that vstd does not describe, and what this crate reads from a
//! `RangeInclusive`.

use core::ops::{RangeFrom, RangeFull, RangeInclusive, RangeTo, RangeToInclusive};
use vstd::prelude::*;

verus! {

/// `core::ops::RangeFrom`, with its public field `start`.
#[verifier::external_type_specification]
#[verifier::reject_recursive_types(Idx)]
pub struct ExRangeFrom<Idx>(RangeFrom<Idx>);

/// `core::ops::RangeTo`, with its public field `end`.
#[verifier::external_type_specification]
#[verifier::reject_recursive_types(Idx)]
pub struct ExRangeTo<Idx>(RangeTo<Idx>);

/// `core::ops::RangeToInclusive`, with its public field `end`.
#[verifier::external_type_specification]
#[verifier::reject_recursive_types(Idx)]
pub struct ExRangeToInclusive<Idx>(RangeToInclusive<Idx>);

/// `core::ops::RangeFull`, which has no fields.
#[verifier::external_type_specification]
pub struct ExRangeFull(RangeFull);

/// `RangeInclusive::start` hands out the lower bound that the range holds.
pub assume_specification<Idx>[ RangeInclusive::<Idx>::start ](
    range: &RangeInclusive<Idx>,
) -> (r: &Idx)
    ensures
        *r == range@.start,
;

/// `RangeInclusive::end` hands out the upper bound that the range holds.
pub assume_specification<Idx>[ RangeInclusive::<Idx>::end ](
    range: &RangeInclusive<Idx>,
) -> (r: &Idx)
    ensures
        *r == range@.end,
;

/// `RangeInclusive::is_empty` on bounds of type `usize`: true once the range is exhausted,
/// and before that exactly when the lower bound lies above the upper bound.
#[verifier::external_body]
pub(crate) fn range_inclusive_is_empty(range: &RangeInclusive<usize>) -> (r: bool)
    ensures
        r == (range@.exhausted || range@.start > range@.end),
{
    range.is_empty()
}

} // verus!

//! Slices of a known length as arrays.

use core::array::TryFromSliceError;
use vstd::prelude::*;

verus! {

/// `core::array::TryFromSliceError`, the error of a conversion from a slice to an array.
#[verifier::external_type_specification]
#[verifier::external_body]
pub struct ExTryFromSliceError(TryFromSliceError);

/// The conversion of std from `&[T]` to `&[T; N]` succeeds exactly when the slice has `N`
/// elements, and the array then holds the elements of the slice.
pub assume_specification<'a, T, const N: usize>[ <&'a [T; N] as TryFrom<&'a [T]>>::try_from ](
    slice: &'a [T],
) -> (r: Result<&'a [T; N], TryFromSliceError>)
    ensures
        r is Ok <==> slice@.len() == N,
        r matches Ok(array) ==> array@ == slice@,
;

/// The conversion of std from `&mut [T]` to `&mut [T; N]` succeeds exactly when the slice
/// has `N` elements. The array then stands for the slice: it starts with the elements of
/// the slice, and what is written to it is written to the slice. A slice of another length
/// stays as it is.
pub assume_specification<'a, T, const N: usize>[ <&'a mut [T; N] as TryFrom<
    &'a mut [T],
>>::try_from ](slice: &'a mut [T]) -> (r: Result<&'a mut [T; N], TryFromSliceError>)
    ensures
        r is Ok <==> old(slice)@.len() == N,
        match r {
            Ok(array) => array@ == old(slice)@ && final(slice)@ == final(array)@,
            Err(_) => final(slice)@ == old(slice)@,
        },
;

/// A slice of `N` elements, seen as an array.
#[inline]
pub(crate) fn as_array<T, const N: usize>(slice: &[T]) -> (array: &[T; N])
    requires
        slice@.len() == N,
    ensures
        array@ == slice@,
{
    <&[T; N]>::try_from(slice).unwrap()
}

/// A slice of `N` elements, seen as an array through which the slice can be written.
#[inline]
pub(crate) fn as_array_mut<T, const N: usize>(slice: &mut [T]) -> (array: &mut [T; N])
    requires
        old(slice)@.len() == N,
    ensures
        array@ == old(slice)@,
        final(slice)@ == final(array)@,
{
    <&mut [T; N]>::try_from(slice).unwrap()
}

} // verus!

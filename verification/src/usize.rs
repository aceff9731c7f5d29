//! A single position as a constant of the type.

use vstd::prelude::*;

verus! {

/// The position `N`.
#[derive(Clone, Copy)]
pub struct ConstUsize<const N: usize>();

impl<const N: usize> ConstUsize<N> {
    /// Makes the descriptor.
    #[inline]
    pub fn new() -> (r: Self)
        ensures
            r == Self(),
    {
        Self()
    }

    /// The position as a run-time number.
    #[inline]
    pub fn value(&self) -> (n: usize)
        ensures
            n == N,
    {
        N
    }
}

impl<const N: usize> Default for ConstUsize<N> {
    fn default() -> (r: Self)
        ensures
            r == Self(),
    {
        Self::new()
    }
}

} // verus!

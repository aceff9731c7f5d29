//! Closes `SliceIntegerIndex` to other crates.

use crate::usize::ConstUsize;
use vstd::prelude::*;

verus! {

/// Implemented only in this crate.
pub trait Sealed {

}

impl<const N: usize> Sealed for ConstUsize<N> {

}

impl Sealed for usize {

}

} // verus!

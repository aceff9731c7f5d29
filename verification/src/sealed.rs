//! Closes `ConstGet` to other crates.

use vstd::prelude::*;

verus! {

/// Implemented only in this crate.
pub trait Sealed {

}

impl<T> Sealed for [T] {

}

} // verus!

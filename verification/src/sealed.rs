//! A trait that only this library implements.

use vstd::prelude::*;

verus! {

/// Marks the types of this library that extension traits are for.
pub trait Sealed {}

} // verus!

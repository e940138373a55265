//! Keeps the set of element kinds closed to this crate.
use vstd::prelude::*;

verus! {

/// Implemented only by the element kinds that this crate supports.
pub trait Sealed {}

impl Sealed for str {}

impl<T: Clone> Sealed for [T] {}

impl Sealed for std::path::Path {}

} // verus!

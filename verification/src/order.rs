use crate::sealed::Sealed;
use vstd::prelude::*;

verus! {

/// A type-level tag giving modifiers a distinct position in the application
/// order. Purely a marker: no operation of this crate reads it.
pub trait Order: Sealed {
}

/// The position tag at the given index.
pub struct At<const INDEX: u64>;

impl<const INDEX: u64> Order for At<INDEX> {
}

impl<const INDEX: u64> Sealed for At<INDEX> {
}

} // verus!

use vstd::prelude::*;

verus! {

/// Marker supertrait that keeps the extensible traits of this crate closed:
/// it can only be implemented inside the crate, so `Modifier` admits exactly
/// the three kinds defined here, and `Order` exactly the position tags.
pub trait Sealed {
}

} // verus!

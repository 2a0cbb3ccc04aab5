//! A small statistics library: a stat is a base value adjusted by three
//! ordered classes of modifiers (flat offsets, additive percentage terms,
//! multiplicative factors), with a lazily recomputed cached result that is
//! invalidated whenever the modifier set changes.

mod sealed;

pub mod frac;
pub mod laws;
pub mod modifier;
pub mod num;
pub mod order;
pub mod prelude;
pub mod single;
pub mod stat;
pub mod sync;

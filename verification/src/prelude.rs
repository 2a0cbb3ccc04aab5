//! One-stop imports for the common use of the library.

pub use crate::frac::Frac;
pub use crate::modifier::shared::{All, Shared};
pub use crate::modifier::{Additive, Flat, Modifier, Multiplicative};
pub use crate::num::{EqValue, NoMeta, RawNum};
pub use crate::single::MiniStat;
pub use crate::stat::{Stat, StatMarker};
pub use crate::sync::MiniStat as MiniStatSync;

use vstd::prelude::*;

verus! {

/// A flat modifier applicable to all stats with raw type `R` and metadata
/// `M`.
pub type FlatAll<R, M> = Flat<All<R, M>, R, M>;

/// An additive modifier applicable to all stats with raw type `R` and
/// metadata `M`.
pub type AdditiveAll<R, M> = Additive<All<R, M>, R, M>;

/// A multiplicative modifier applicable to all stats with raw type `R` and
/// metadata `M`.
pub type MultiplicativeAll<R, M> = Multiplicative<All<R, M>, R, M>;

} // verus!

use crate::modifier::Modifier;
use crate::num::{EqValue, RawNum};
use crate::stat::StatMarker;
use core::marker::PhantomData;
use vstd::prelude::*;

verus! {

/// The shared modifier group: a stat marker standing for "applicable to every
/// stat channel with this raw and metadata type".
///
/// A modifier bound to `All<R, M>` can be converted, by an explicit `share`
/// call, into the same kind of modifier bound to any concrete marker sharing
/// `R` and `M`.
pub struct All<Raw, M>(PhantomData<Raw>, PhantomData<M>) where Raw: RawNum, M: EqValue;

impl<Raw: RawNum, M: EqValue> StatMarker for All<Raw, M> {
    type Raw = Raw;

    type Metadata = M;
}

/// The conversion capability that lets a modifier bound to a group marker be
/// re-bound to a concrete target marker.
///
/// The conversion is a pure value transform: `share` carries the raw value
/// and the metadata across unchanged, as its contract states. The built-in
/// group `All<R, M>` implements it for every target with the same raw and
/// metadata types; host code may implement it for its own group markers and
/// a fixed set of targets.
pub trait Shared<To: StatMarker>: Modifier {
    /// The same modifier kind, re-bound to the target marker.
    type TargetModifier: Modifier<Target = To, Raw = Self::Raw, Metadata = Self::Metadata>;

    /// Converts the modifier to the target marker, carrying raw value and
    /// metadata across unchanged.
    fn share(self) -> (r: Self::TargetModifier)
        ensures
            r.raw_spec() == self.raw_spec(),
            r.metadata_spec() == self.metadata_spec(),
    ;
}

} // verus!

pub mod shared;

use crate::num::{EqValue, RawNum};
use crate::sealed::Sealed;
use crate::stat::StatMarker;
use core::marker::PhantomData;
use shared::{All, Shared};
use vstd::prelude::*;

verus! {

/// The interface common to the three modifier kinds: an immutable value
/// holding a raw number and optional metadata, bound at the type level to one
/// stat marker.
///
/// The trait is sealed: exactly `Flat`, `Additive` and `Multiplicative`
/// implement it.
pub trait Modifier: Sealed + Sized + Copy {
    /// The stat marker this modifier is applicable to.
    type Target: StatMarker;

    /// The raw numeric type of the modifier value.
    type Raw: RawNum;

    /// The metadata type attached to the modifier.
    type Metadata: EqValue;

    /// The raw value held by the modifier.
    spec fn raw_spec(self) -> Self::Raw;

    /// The metadata held by the modifier, absent unless explicitly attached.
    spec fn metadata_spec(self) -> Option<Self::Metadata>;

    /// Builds a modifier from a raw value, with no metadata.
    fn from_raw(raw: Self::Raw) -> (r: Self)
        ensures
            r.raw_spec() == raw,
            r.metadata_spec() is None,
    ;

    /// Returns the raw value held by the modifier.
    fn raw(&self) -> (r: Self::Raw)
        ensures
            r == self.raw_spec(),
    ;

    /// Decides structural equality with another modifier of the same kind:
    /// equal raw values and equal metadata.
    fn same_as(&self, other: &Self) -> (r: bool)
        ensures
            r == (self.raw_spec() == other.raw_spec() && self.metadata_spec()
                == other.metadata_spec()),
    ;
}

/// Structural equality of two modifiers of the same kind: equal raw values
/// and equal metadata.
pub open spec fn mod_eq<Mod: Modifier>(a: Mod, b: Mod) -> bool {
    a.raw_spec() == b.raw_spec() && a.metadata_spec() == b.metadata_spec()
}

/// A flat modifier ("+1", "-10"): an absolute offset added to the base value
/// before any percentage math.
#[derive(Debug)]
pub struct Flat<S, R, M> where S: StatMarker, R: RawNum, M: EqValue {
    raw: R,
    metadata: Option<M>,
    _target: PhantomData<S>,
}

impl<S: StatMarker, R: RawNum, M: EqValue> Sealed for Flat<S, R, M> {
}

impl<S: StatMarker, R: RawNum, M: EqValue> Modifier for Flat<S, R, M> {
    type Target = S;

    type Raw = R;

    type Metadata = M;

    closed spec fn raw_spec(self) -> R {
        self.raw
    }

    closed spec fn metadata_spec(self) -> Option<M> {
        self.metadata
    }

    fn from_raw(raw: R) -> (r: Self) {
        Flat { raw, metadata: None, _target: PhantomData }
    }

    fn raw(&self) -> (r: R) {
        self.raw
    }

    fn same_as(&self, other: &Self) -> (r: bool) {
        self.raw.eq_value(&other.raw) && (match (self.metadata, other.metadata) {
            (None, None) => true,
            (Some(a), Some(b)) => a.eq_value(&b),
            _ => false,
        })
    }
}

impl<S: StatMarker, R: RawNum, M: EqValue> Clone for Flat<S, R, M> {
    fn clone(&self) -> (r: Self)
        ensures
            r == *self,
    {
        *self
    }
}

impl<S: StatMarker, R: RawNum, M: EqValue> Copy for Flat<S, R, M> {
}

impl<S: StatMarker, R: RawNum, M: EqValue> PartialEq for Flat<S, R, M> {
    fn eq(&self, other: &Self) -> (r: bool) {
        self.same_as(other)
    }
}

impl<S: StatMarker, R: RawNum, M: EqValue> vstd::std_specs::cmp::PartialEqSpecImpl for Flat<S, R, M> {
    open spec fn obeys_eq_spec() -> bool {
        true
    }

    open spec fn eq_spec(&self, other: &Self) -> bool {
        mod_eq(*self, *other)
    }
}

impl<S: StatMarker, R: RawNum, M: EqValue> From<R> for Flat<S, R, M> {
    fn from(value: R) -> (r: Self)
        ensures
            r.raw_spec() == value,
            r.metadata_spec() is None,
    {
        Self::from_raw(value)
    }
}

impl<S: StatMarker, R: RawNum, M: EqValue> vstd::std_specs::convert::FromSpecImpl<R> for Flat<S, R, M> {
    open spec fn obeys_from_spec() -> bool {
        true
    }

    closed spec fn from_spec(value: R) -> Self {
        Flat { raw: value, metadata: None, _target: PhantomData }
    }
}

impl<S: StatMarker, R: RawNum, M: EqValue> Default for Flat<S, R, M> {
    /// The neutral flat modifier: the additive neutral element, no metadata.
    fn default() -> (r: Self)
        ensures
            r.raw_spec() == R::zero_spec(),
            r.metadata_spec() is None,
    {
        Self::from_raw(R::zero())
    }
}

impl<To: StatMarker, R: RawNum, M: EqValue> Shared<To> for Flat<All<R, M>, R, M> {
    type TargetModifier = Flat<To, R, M>;

    fn share(self) -> (r: Flat<To, R, M>) {
        Flat { raw: self.raw, metadata: self.metadata, _target: PhantomData }
    }
}

/// An additive multiplier modifier ("+10%"): a percentage-style term summed
/// with the other additive terms, then applied once as a single combined
/// multiplier.
#[derive(Debug)]
pub struct Additive<S, R, M> where S: StatMarker, R: RawNum, M: EqValue {
    raw: R,
    metadata: Option<M>,
    _target: PhantomData<S>,
}

impl<S: StatMarker, R: RawNum, M: EqValue> Sealed for Additive<S, R, M> {
}

impl<S: StatMarker, R: RawNum, M: EqValue> Modifier for Additive<S, R, M> {
    type Target = S;

    type Raw = R;

    type Metadata = M;

    closed spec fn raw_spec(self) -> R {
        self.raw
    }

    closed spec fn metadata_spec(self) -> Option<M> {
        self.metadata
    }

    fn from_raw(raw: R) -> (r: Self) {
        Additive { raw, metadata: None, _target: PhantomData }
    }

    fn raw(&self) -> (r: R) {
        self.raw
    }

    fn same_as(&self, other: &Self) -> (r: bool) {
        self.raw.eq_value(&other.raw) && (match (self.metadata, other.metadata) {
            (None, None) => true,
            (Some(a), Some(b)) => a.eq_value(&b),
            _ => false,
        })
    }
}

impl<S: StatMarker, R: RawNum, M: EqValue> Clone for Additive<S, R, M> {
    fn clone(&self) -> (r: Self)
        ensures
            r == *self,
    {
        *self
    }
}

impl<S: StatMarker, R: RawNum, M: EqValue> Copy for Additive<S, R, M> {
}

impl<S: StatMarker, R: RawNum, M: EqValue> PartialEq for Additive<S, R, M> {
    fn eq(&self, other: &Self) -> (r: bool) {
        self.same_as(other)
    }
}

impl<S: StatMarker, R: RawNum, M: EqValue> vstd::std_specs::cmp::PartialEqSpecImpl for Additive<S, R, M> {
    open spec fn obeys_eq_spec() -> bool {
        true
    }

    open spec fn eq_spec(&self, other: &Self) -> bool {
        mod_eq(*self, *other)
    }
}

impl<S: StatMarker, R: RawNum, M: EqValue> From<R> for Additive<S, R, M> {
    fn from(value: R) -> (r: Self)
        ensures
            r.raw_spec() == value,
            r.metadata_spec() is None,
    {
        Self::from_raw(value)
    }
}

impl<S: StatMarker, R: RawNum, M: EqValue> vstd::std_specs::convert::FromSpecImpl<R> for Additive<S, R, M> {
    open spec fn obeys_from_spec() -> bool {
        true
    }

    closed spec fn from_spec(value: R) -> Self {
        Additive { raw: value, metadata: None, _target: PhantomData }
    }
}

impl<S: StatMarker, R: RawNum, M: EqValue> Default for Additive<S, R, M> {
    /// The neutral additive modifier: the multiplicative neutral element,
    /// since additive terms are summed around a combined multiplier of one.
    fn default() -> (r: Self)
        ensures
            r.raw_spec() == R::one_spec(),
            r.metadata_spec() is None,
    {
        Self::from_raw(R::one())
    }
}

impl<To: StatMarker, R: RawNum, M: EqValue> Shared<To> for Additive<All<R, M>, R, M> {
    type TargetModifier = Additive<To, R, M>;

    fn share(self) -> (r: Additive<To, R, M>) {
        Additive { raw: self.raw, metadata: self.metadata, _target: PhantomData }
    }
}

/// A multiplicative modifier ("x10"): an independent multiplicative factor
/// applied last.
#[derive(Debug)]
pub struct Multiplicative<S, R, M> where S: StatMarker, R: RawNum, M: EqValue {
    raw: R,
    metadata: Option<M>,
    _target: PhantomData<S>,
}

impl<S: StatMarker, R: RawNum, M: EqValue> Sealed for Multiplicative<S, R, M> {
}

impl<S: StatMarker, R: RawNum, M: EqValue> Modifier for Multiplicative<S, R, M> {
    type Target = S;

    type Raw = R;

    type Metadata = M;

    closed spec fn raw_spec(self) -> R {
        self.raw
    }

    closed spec fn metadata_spec(self) -> Option<M> {
        self.metadata
    }

    fn from_raw(raw: R) -> (r: Self) {
        Multiplicative { raw, metadata: None, _target: PhantomData }
    }

    fn raw(&self) -> (r: R) {
        self.raw
    }

    fn same_as(&self, other: &Self) -> (r: bool) {
        self.raw.eq_value(&other.raw) && (match (self.metadata, other.metadata) {
            (None, None) => true,
            (Some(a), Some(b)) => a.eq_value(&b),
            _ => false,
        })
    }
}

impl<S: StatMarker, R: RawNum, M: EqValue> Clone for Multiplicative<S, R, M> {
    fn clone(&self) -> (r: Self)
        ensures
            r == *self,
    {
        *self
    }
}

impl<S: StatMarker, R: RawNum, M: EqValue> Copy for Multiplicative<S, R, M> {
}

impl<S: StatMarker, R: RawNum, M: EqValue> PartialEq for Multiplicative<S, R, M> {
    fn eq(&self, other: &Self) -> (r: bool) {
        self.same_as(other)
    }
}

impl<S: StatMarker, R: RawNum, M: EqValue> vstd::std_specs::cmp::PartialEqSpecImpl for Multiplicative<S, R, M> {
    open spec fn obeys_eq_spec() -> bool {
        true
    }

    open spec fn eq_spec(&self, other: &Self) -> bool {
        mod_eq(*self, *other)
    }
}

impl<S: StatMarker, R: RawNum, M: EqValue> From<R> for Multiplicative<S, R, M> {
    fn from(value: R) -> (r: Self)
        ensures
            r.raw_spec() == value,
            r.metadata_spec() is None,
    {
        Self::from_raw(value)
    }
}

impl<S: StatMarker, R: RawNum, M: EqValue> vstd::std_specs::convert::FromSpecImpl<R> for Multiplicative<S, R, M> {
    open spec fn obeys_from_spec() -> bool {
        true
    }

    closed spec fn from_spec(value: R) -> Self {
        Multiplicative { raw: value, metadata: None, _target: PhantomData }
    }
}

impl<S: StatMarker, R: RawNum, M: EqValue> Default for Multiplicative<S, R, M> {
    /// The neutral multiplicative modifier: the multiplicative neutral
    /// element.
    fn default() -> (r: Self)
        ensures
            r.raw_spec() == R::one_spec(),
            r.metadata_spec() is None,
    {
        Self::from_raw(R::one())
    }
}

impl<To: StatMarker, R: RawNum, M: EqValue> Shared<To> for Multiplicative<All<R, M>, R, M> {
    type TargetModifier = Multiplicative<To, R, M>;

    fn share(self) -> (r: Multiplicative<To, R, M>) {
        Multiplicative { raw: self.raw, metadata: self.metadata, _target: PhantomData }
    }
}

} // verus!

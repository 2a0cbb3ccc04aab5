//! The single-owner wrapper around one stat entity.

use crate::modifier::shared::Shared;
use crate::modifier::{Additive, Flat, Modifier, Multiplicative};
use crate::stat::{Stat, StatData, StatMarker};
use vstd::prelude::*;

verus! {

/// A wrapper owning exactly one stat entity, for a single logical owner.
///
/// Exclusive access is enforced statically: every mutating operation takes
/// the wrapper by `&mut`, so no two operations can ever hold overlapping
/// access to the entity, and no runtime check is needed. Unlike the bare
/// entity, `cached` always forces a recomputation before reading, so it
/// returns the derived value directly rather than an optional one.
#[derive(Debug)]
pub struct MiniStat<Marker: StatMarker> {
    inner: Stat<Marker>,
}

impl<Marker: StatMarker> View for MiniStat<Marker> {
    type V = StatData<Marker>;

    closed spec fn view(&self) -> StatData<Marker> {
        self.inner@
    }
}

impl<Marker: StatMarker> MiniStat<Marker> {
    /// Wraps an existing stat entity.
    pub fn new(stat: Stat<Marker>) -> (r: Self)
        ensures
            r@ == stat@,
    {
        MiniStat { inner: stat }
    }

    /// Builds a wrapper around a fresh stat with the given base value.
    pub fn with_base(base: Marker::Raw) -> (r: Self)
        ensures
            r@ == StatData::<Marker>::with_base(base),
    {
        MiniStat { inner: Stat::with_base(base) }
    }

    /// Direct mutable access to the wrapped entity, for batched mutation.
    pub fn stat_mut(&mut self) -> (r: &mut Stat<Marker>)
        ensures
            (*r)@ == old(self)@,
            final(self)@ == (*final(r))@,
    {
        &mut self.inner
    }

    /// Returns the base value; never recomputes.
    pub fn base(&self) -> (r: Marker::Raw)
        ensures
            r == self@.base,
    {
        self.inner.base()
    }

    /// Forces a recomputation if the cache is dirty, then returns the derived
    /// value of the current contents.
    pub fn cached(&mut self) -> (r: Marker::Raw)
        ensures
            final(self)@ == old(self)@.recompute(),
            r == old(self)@.total(),
    {
        proof {
            use_type_invariant(&self.inner);
        }
        self.inner.cache_value();
        match self.inner.cached() {
            Some(v) => v,
            None => vstd::pervasive::unreached(),
        }
    }

    /// Appends a flat modifier and clears the cache.
    pub fn apply_flat(&mut self, flat: Flat<Marker, Marker::Raw, Marker::Metadata>)
        ensures
            final(self)@ == old(self)@.apply_flat(flat),
    {
        self.inner.apply_flat(flat);
    }

    /// Converts a shared flat modifier to this marker and appends it.
    pub fn apply_flat_from_shared<T>(&mut self, flat: T) where
        T: Shared<Marker, TargetModifier = Flat<Marker, Marker::Raw, Marker::Metadata>> + Modifier<
            Raw = Marker::Raw,
            Metadata = Marker::Metadata,
        >,

        ensures
            final(self)@.flats.len() == old(self)@.flats.len() + 1,
            final(self)@.flats.last().raw_spec() == flat.raw_spec(),
            final(self)@.flats.last().metadata_spec() == flat.metadata_spec(),
            final(self)@ == old(self)@.apply_flat(final(self)@.flats.last()),
    {
        self.inner.apply_flat_from_shared(flat);
    }

    /// Appends an additive modifier and clears the cache.
    pub fn apply_add(&mut self, add: Additive<Marker, Marker::Raw, Marker::Metadata>)
        ensures
            final(self)@ == old(self)@.apply_add(add),
    {
        self.inner.apply_add(add);
    }

    /// Converts a shared additive modifier to this marker and appends it.
    pub fn apply_add_from_shared<T>(&mut self, add: T) where
        T: Shared<Marker, TargetModifier = Additive<Marker, Marker::Raw, Marker::Metadata>>
            + Modifier<Raw = Marker::Raw, Metadata = Marker::Metadata>,

        ensures
            final(self)@.adds.len() == old(self)@.adds.len() + 1,
            final(self)@.adds.last().raw_spec() == add.raw_spec(),
            final(self)@.adds.last().metadata_spec() == add.metadata_spec(),
            final(self)@ == old(self)@.apply_add(final(self)@.adds.last()),
    {
        self.inner.apply_add_from_shared(add);
    }

    /// Appends a multiplicative modifier and clears the cache.
    pub fn apply_mul(&mut self, mul: Multiplicative<Marker, Marker::Raw, Marker::Metadata>)
        ensures
            final(self)@ == old(self)@.apply_mul(mul),
    {
        self.inner.apply_mul(mul);
    }

    /// Converts a shared multiplicative modifier to this marker and appends
    /// it.
    pub fn apply_mul_from_shared<T>(&mut self, mul: T) where
        T: Shared<Marker, TargetModifier = Multiplicative<Marker, Marker::Raw, Marker::Metadata>>
            + Modifier<Raw = Marker::Raw, Metadata = Marker::Metadata>,

        ensures
            final(self)@.muls.len() == old(self)@.muls.len() + 1,
            final(self)@.muls.last().raw_spec() == mul.raw_spec(),
            final(self)@.muls.last().metadata_spec() == mul.metadata_spec(),
            final(self)@ == old(self)@.apply_mul(final(self)@.muls.last()),
    {
        self.inner.apply_mul_from_shared(mul);
    }

    /// Removes the first structurally equal flat modifier; a silent no-op
    /// when none is equal.
    pub fn remove_flat(&mut self, flat: Flat<Marker, Marker::Raw, Marker::Metadata>)
        ensures
            final(self)@ == old(self)@.remove_flat(flat),
    {
        self.inner.remove_flat(flat);
    }

    /// Removes the first structurally equal additive modifier; a silent no-op
    /// when none is equal.
    pub fn remove_add(&mut self, additive: Additive<Marker, Marker::Raw, Marker::Metadata>)
        ensures
            final(self)@ == old(self)@.remove_add(additive),
    {
        self.inner.remove_add(additive);
    }

    /// Removes the first structurally equal multiplicative modifier; a silent
    /// no-op when none is equal.
    pub fn remove_mul(
        &mut self,
        multiplicative: Multiplicative<Marker, Marker::Raw, Marker::Metadata>,
    )
        ensures
            final(self)@ == old(self)@.remove_mul(multiplicative),
    {
        self.inner.remove_mul(multiplicative);
    }
}

} // verus!

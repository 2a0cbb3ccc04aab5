//! The lock-guarded wrapper around one stat entity, safe for concurrent
//! callers from multiple threads.

use crate::modifier::shared::Shared;
use crate::modifier::{Additive, Flat, Modifier, Multiplicative};
use crate::stat::{Stat, StatData, StatMarker};
use vstd::prelude::*;
use vstd::rwlock::{RwLock, RwLockPredicate, WriteHandle};

verus! {

/// The lock invariant of the wrapper: the wrapped stat always carries the
/// base value the wrapper was built with. Together with the stat's own cache
/// coherence, this holds at every moment the lock is free.
pub struct BasePred<Marker: StatMarker> {
    pub base: Marker::Raw,
}

impl<Marker: StatMarker> RwLockPredicate<Stat<Marker>> for BasePred<Marker> {
    open spec fn inv(self, s: Stat<Marker>) -> bool {
        s@.base == self.base
    }
}

/// A wrapper owning exactly one stat entity behind a reader-writer lock.
///
/// Every operation acquires exclusive (or shared, for plain reads) access to
/// the entity for its duration and releases it on return, so operations on
/// the same wrapper never interleave their effects. No atomicity is provided
/// across separate calls; `stat_mut` hands out the lock itself for batched
/// mutation.
pub struct MiniStat<Marker: StatMarker> {
    lock: RwLock<Stat<Marker>, BasePred<Marker>>,
}

impl<Marker: StatMarker> MiniStat<Marker> {
    /// The base value of the wrapped stat, fixed at construction.
    pub closed spec fn base_spec(&self) -> Marker::Raw {
        self.lock.pred().base
    }

    /// Wraps an existing stat entity.
    pub fn new(stat: Stat<Marker>) -> (r: Self)
        ensures
            r.base_spec() == stat@.base,
    {
        let ghost pred = BasePred::<Marker> { base: stat@.base };
        MiniStat { lock: RwLock::new(stat, Ghost(pred)) }
    }

    /// Builds a wrapper around a fresh stat with the given base value.
    pub fn with_base(base: Marker::Raw) -> (r: Self)
        ensures
            r.base_spec() == base,
    {
        Self::new(Stat::with_base(base))
    }

    /// Acquires exclusive access to the wrapped stat for batched mutation.
    /// The caller gives the stat back — its base unchanged — with
    /// `release_write` on the returned handle.
    pub fn stat_mut(&self) -> (r: (
        Stat<Marker>,
        WriteHandle<'_, Stat<Marker>, BasePred<Marker>>,
    ))
        ensures
            r.0@.base == self.base_spec(),
            r.1.rwlock().pred() == (BasePred::<Marker> { base: self.base_spec() }),
    {
        self.lock.acquire_write()
    }

    /// Returns the base value; never recomputes.
    pub fn base(&self) -> (r: Marker::Raw)
        ensures
            r == self.base_spec(),
    {
        let handle = self.lock.acquire_read();
        let r = handle.borrow().base();
        handle.release_read();
        r
    }

    /// Forces a recomputation if the cache is dirty, then returns the derived
    /// value: the documented fold over some coherent contents carrying this
    /// wrapper's base. Which contents is not observable here, since a
    /// concurrent caller may mutate them between any two calls.
    pub fn cached(&self) -> (r: Marker::Raw)
        ensures
            exists|d: StatData<Marker>|
                #[trigger] d.wf() && d.base == self.base_spec() && r == d.total(),
    {
        let (mut s, handle) = self.lock.acquire_write();
        s.cache_value();
        let r = match s.cached() {
            Some(v) => v,
            None => vstd::pervasive::unreached(),
        };
        proof {
            use_type_invariant(&s);
            assert(s@.wf() && s@.base == self.base_spec() && r == s@.total());
        }
        handle.release_write(s);
        r
    }

    /// Appends a flat modifier and clears the cache.
    pub fn apply_flat(&self, flat: Flat<Marker, Marker::Raw, Marker::Metadata>) {
        let (mut s, handle) = self.lock.acquire_write();
        s.apply_flat(flat);
        handle.release_write(s);
    }

    /// Converts a shared flat modifier to this marker and appends it.
    pub fn apply_flat_from_shared<T>(&self, flat: T) where
        T: Shared<Marker, TargetModifier = Flat<Marker, Marker::Raw, Marker::Metadata>> + Modifier<
            Raw = Marker::Raw,
            Metadata = Marker::Metadata,
        >,
    {
        let (mut s, handle) = self.lock.acquire_write();
        s.apply_flat_from_shared(flat);
        handle.release_write(s);
    }

    /// Appends an additive modifier and clears the cache.
    pub fn apply_add(&self, add: Additive<Marker, Marker::Raw, Marker::Metadata>) {
        let (mut s, handle) = self.lock.acquire_write();
        s.apply_add(add);
        handle.release_write(s);
    }

    /// Converts a shared additive modifier to this marker and appends it.
    pub fn apply_add_from_shared<T>(&self, add: T) where
        T: Shared<Marker, TargetModifier = Additive<Marker, Marker::Raw, Marker::Metadata>>
            + Modifier<Raw = Marker::Raw, Metadata = Marker::Metadata>,
    {
        let (mut s, handle) = self.lock.acquire_write();
        s.apply_add_from_shared(add);
        handle.release_write(s);
    }

    /// Appends a multiplicative modifier and clears the cache.
    pub fn apply_mul(&self, mul: Multiplicative<Marker, Marker::Raw, Marker::Metadata>) {
        let (mut s, handle) = self.lock.acquire_write();
        s.apply_mul(mul);
        handle.release_write(s);
    }

    /// Converts a shared multiplicative modifier to this marker and appends
    /// it.
    pub fn apply_mul_from_shared<T>(&self, mul: T) where
        T: Shared<Marker, TargetModifier = Multiplicative<Marker, Marker::Raw, Marker::Metadata>>
            + Modifier<Raw = Marker::Raw, Metadata = Marker::Metadata>,
    {
        let (mut s, handle) = self.lock.acquire_write();
        s.apply_mul_from_shared(mul);
        handle.release_write(s);
    }

    /// Removes the first structurally equal flat modifier; a silent no-op
    /// when none is equal.
    pub fn remove_flat(&self, flat: Flat<Marker, Marker::Raw, Marker::Metadata>) {
        let (mut s, handle) = self.lock.acquire_write();
        s.remove_flat(flat);
        handle.release_write(s);
    }

    /// Removes the first structurally equal additive modifier; a silent no-op
    /// when none is equal.
    pub fn remove_add(&self, additive: Additive<Marker, Marker::Raw, Marker::Metadata>) {
        let (mut s, handle) = self.lock.acquire_write();
        s.remove_add(additive);
        handle.release_write(s);
    }

    /// Removes the first structurally equal multiplicative modifier; a silent
    /// no-op when none is equal.
    pub fn remove_mul(&self, multiplicative: Multiplicative<Marker, Marker::Raw, Marker::Metadata>) {
        let (mut s, handle) = self.lock.acquire_write();
        s.remove_mul(multiplicative);
        handle.release_write(s);
    }
}

} // verus!

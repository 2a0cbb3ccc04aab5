use crate::modifier::shared::Shared;
use crate::modifier::{mod_eq, Additive, Flat, Modifier, Multiplicative};
use crate::num::{EqValue, RawNum};
use vstd::prelude::*;

verus! {

/// A type-level tag naming one stat channel and fixing the numeric
/// representation and metadata type of every modifier applied to it.
///
/// A marker is never instantiated as runtime state: it only keeps modifiers
/// meant for different channels apart at compile time.
pub trait StatMarker {
    /// The raw numeric representation of the channel.
    type Raw: RawNum;

    /// A side-channel value (such as a label) attached to individual
    /// modifiers.
    type Metadata: EqValue;
}

/// Left fold of `add_spec` over a sequence of raw values, starting from
/// `acc`, in sequence order.
pub open spec fn fold_add<R: RawNum>(acc: R, s: Seq<R>) -> R
    decreases s.len(),
{
    if s.len() == 0 {
        acc
    } else {
        fold_add(acc.add_spec(s[0]), s.drop_first())
    }
}

/// Left fold of `mul_spec` over a sequence of raw values, starting from
/// `acc`, in sequence order.
pub open spec fn fold_mul<R: RawNum>(acc: R, s: Seq<R>) -> R
    decreases s.len(),
{
    if s.len() == 0 {
        acc
    } else {
        fold_mul(acc.mul_spec(s[0]), s.drop_first())
    }
}

/// The raw values of a sequence of modifiers, in order.
pub open spec fn raws<Mod: Modifier>(s: Seq<Mod>) -> Seq<Mod::Raw> {
    s.map_values(|m: Mod| m.raw_spec())
}

/// The derived stat value: the base plus the sum of the flat offsets, times
/// the additive terms summed from the multiplicative neutral element, times
/// the product of the multiplicative factors, each fold in insertion order.
pub open spec fn derived<R: RawNum>(base: R, flats: Seq<R>, adds: Seq<R>, muls: Seq<R>) -> R {
    base.add_spec(fold_add(R::zero_spec(), flats)).mul_spec(
        fold_add(R::one_spec(), adds),
    ).mul_spec(fold_mul(R::one_spec(), muls))
}

/// Extending an additive fold by one pushed value folds that value last.
pub proof fn lemma_fold_add_push<R: RawNum>(acc: R, s: Seq<R>, x: R)
    ensures
        fold_add(acc, s.push(x)) == fold_add(acc, s).add_spec(x),
    decreases s.len(),
{
    if s.len() == 0 {
        assert(s.push(x).drop_first() =~= Seq::<R>::empty());
        assert(fold_add(acc.add_spec(x), Seq::<R>::empty()) == acc.add_spec(x));
    } else {
        assert(s.push(x).drop_first() =~= s.drop_first().push(x));
        lemma_fold_add_push(acc.add_spec(s[0]), s.drop_first(), x);
    }
}

/// Extending a multiplicative fold by one pushed value folds that value last.
pub proof fn lemma_fold_mul_push<R: RawNum>(acc: R, s: Seq<R>, x: R)
    ensures
        fold_mul(acc, s.push(x)) == fold_mul(acc, s).mul_spec(x),
    decreases s.len(),
{
    if s.len() == 0 {
        assert(s.push(x).drop_first() =~= Seq::<R>::empty());
        assert(fold_mul(acc.mul_spec(x), Seq::<R>::empty()) == acc.mul_spec(x));
    } else {
        assert(s.push(x).drop_first() =~= s.drop_first().push(x));
        lemma_fold_mul_push(acc.mul_spec(s[0]), s.drop_first(), x);
    }
}

/// `raws` distributes over `push`.
pub proof fn lemma_raws_push<Mod: Modifier>(s: Seq<Mod>, m: Mod)
    ensures
        raws(s.push(m)) == raws(s).push(m.raw_spec()),
{
    assert(raws(s.push(m)) =~= raws(s).push(m.raw_spec()));
}

/// The index of the first modifier in `s` structurally equal to `x`, if any.
pub open spec fn first_eq<Mod: Modifier>(s: Seq<Mod>, x: Mod) -> Option<int>
    decreases s.len(),
{
    if s.len() == 0 {
        None
    } else if mod_eq(s[0], x) {
        Some(0int)
    } else {
        match first_eq(s.drop_first(), x) {
            Some(i) => Some(i + 1),
            None => None,
        }
    }
}

/// What `first_eq` returns: the index of a match all of whose predecessors
/// are non-matches, or nothing when no element matches.
pub proof fn lemma_first_eq_props<Mod: Modifier>(s: Seq<Mod>, x: Mod)
    ensures
        match first_eq(s, x) {
            Some(i) => 0 <= i < s.len() && mod_eq(s[i], x) && (forall|j: int|
                0 <= j < i ==> !mod_eq(s[j], x)),
            None => forall|j: int| 0 <= j < s.len() ==> !mod_eq(s[j], x),
        },
    decreases s.len(),
{
    if s.len() > 0 && !mod_eq(s[0], x) {
        lemma_first_eq_props(s.drop_first(), x);
        let rest = s.drop_first();
        match first_eq(rest, x) {
            Some(i) => {
                assert(mod_eq(s[i + 1], x)) by {
                    assert(rest[i] == s[i + 1]);
                }
                assert forall|j: int| 0 <= j < i + 1 implies !mod_eq(s[j], x) by {
                    if j > 0 {
                        assert(rest[j - 1] == s[j]);
                        assert(!mod_eq(rest[j - 1], x));
                    }
                }
            },
            None => {
                assert forall|j: int| 0 <= j < s.len() implies !mod_eq(s[j], x) by {
                    if j > 0 {
                        assert(rest[j - 1] == s[j]);
                        assert(!mod_eq(rest[j - 1], x));
                    }
                }
            },
        }
    }
}

/// `first_eq` returns exactly the index whose predecessors are all
/// non-matches.
proof fn lemma_first_eq_witness<Mod: Modifier>(s: Seq<Mod>, x: Mod, i: int)
    requires
        0 <= i < s.len(),
        mod_eq(s[i], x),
        forall|j: int| 0 <= j < i ==> !mod_eq(s[j], x),
    ensures
        first_eq(s, x) == Some(i),
    decreases s.len(),
{
    if i > 0 {
        lemma_first_eq_witness(s.drop_first(), x, i - 1);
    }
}

/// `first_eq` returns nothing when no element matches.
proof fn lemma_first_eq_none<Mod: Modifier>(s: Seq<Mod>, x: Mod)
    requires
        forall|j: int| 0 <= j < s.len() ==> !mod_eq(s[j], x),
    ensures
        first_eq(s, x) is None,
    decreases s.len(),
{
    if s.len() > 0 {
        lemma_first_eq_none(s.drop_first(), x);
    }
}

/// The abstract state of a stat: the base value, the cached derived value if
/// the cache is clean, and the three modifier sequences in insertion order.
///
/// Every operation of [`Stat`] is specified as a transition on this type.
pub struct StatData<Marker: StatMarker> {
    pub base: Marker::Raw,
    pub cached: Option<Marker::Raw>,
    pub flats: Seq<Flat<Marker, Marker::Raw, Marker::Metadata>>,
    pub adds: Seq<Additive<Marker, Marker::Raw, Marker::Metadata>>,
    pub muls: Seq<Multiplicative<Marker, Marker::Raw, Marker::Metadata>>,
}

impl<Marker: StatMarker> StatData<Marker> {
    /// The derived value of the current contents.
    pub open spec fn total(self) -> Marker::Raw {
        derived(self.base, raws(self.flats), raws(self.adds), raws(self.muls))
    }

    /// Cache coherence: a present cached value equals the derived value of
    /// the current contents.
    pub open spec fn wf(self) -> bool {
        self.cached matches Some(v) ==> v == self.total()
    }

    /// A fresh stat: the cache is clean and holds the base itself, which
    /// equals the derived value over empty modifier sequences.
    pub open spec fn with_base(base: Marker::Raw) -> Self {
        StatData {
            base,
            cached: Some(base),
            flats: Seq::empty(),
            adds: Seq::empty(),
            muls: Seq::empty(),
        }
    }

    /// Recomputation: fills the cache with the derived value when it is
    /// absent, and changes nothing when it is present.
    pub open spec fn recompute(self) -> Self {
        if self.cached is Some {
            self
        } else {
            StatData {
                base: self.base,
                cached: Some(self.total()),
                flats: self.flats,
                adds: self.adds,
                muls: self.muls,
            }
        }
    }

    /// Appending a flat modifier: pushed at the end, cache cleared.
    pub open spec fn apply_flat(self, m: Flat<Marker, Marker::Raw, Marker::Metadata>) -> Self {
        StatData {
            base: self.base,
            cached: None,
            flats: self.flats.push(m),
            adds: self.adds,
            muls: self.muls,
        }
    }

    /// Appending an additive modifier: pushed at the end, cache cleared.
    pub open spec fn apply_add(self, m: Additive<Marker, Marker::Raw, Marker::Metadata>) -> Self {
        StatData {
            base: self.base,
            cached: None,
            flats: self.flats,
            adds: self.adds.push(m),
            muls: self.muls,
        }
    }

    /// Appending a multiplicative modifier: pushed at the end, cache cleared.
    pub open spec fn apply_mul(
        self,
        m: Multiplicative<Marker, Marker::Raw, Marker::Metadata>,
    ) -> Self {
        StatData {
            base: self.base,
            cached: None,
            flats: self.flats,
            adds: self.adds,
            muls: self.muls.push(m),
        }
    }

    /// Removing a flat modifier: the first structurally equal entry is
    /// replaced by the last entry and the sequence shortened (swap removal),
    /// and the cache cleared; with no equal entry the state is unchanged.
    pub open spec fn remove_flat(self, m: Flat<Marker, Marker::Raw, Marker::Metadata>) -> Self {
        match first_eq(self.flats, m) {
            Some(i) => StatData {
                base: self.base,
                cached: None,
                flats: self.flats.update(i, self.flats.last()).drop_last(),
                adds: self.adds,
                muls: self.muls,
            },
            None => self,
        }
    }

    /// Removing an additive modifier, as for `remove_flat`.
    pub open spec fn remove_add(self, m: Additive<Marker, Marker::Raw, Marker::Metadata>) -> Self {
        match first_eq(self.adds, m) {
            Some(i) => StatData {
                base: self.base,
                cached: None,
                flats: self.flats,
                adds: self.adds.update(i, self.adds.last()).drop_last(),
                muls: self.muls,
            },
            None => self,
        }
    }

    /// Removing a multiplicative modifier, as for `remove_flat`.
    pub open spec fn remove_mul(
        self,
        m: Multiplicative<Marker, Marker::Raw, Marker::Metadata>,
    ) -> Self {
        match first_eq(self.muls, m) {
            Some(i) => StatData {
                base: self.base,
                cached: None,
                flats: self.flats,
                adds: self.adds,
                muls: self.muls.update(i, self.muls.last()).drop_last(),
            },
            None => self,
        }
    }
}

/// A stat: a base value, three ordered collections of modifiers, and a lazily
/// recomputed cached derived value.
///
/// The cache is coherent by construction: whenever it holds a value, that
/// value equals the derived value of the current contents. This invariant is
/// maintained across every operation.
#[derive(Debug)]
pub struct Stat<Marker: StatMarker> {
    base: Marker::Raw,
    cached: Option<Marker::Raw>,
    flats: Vec<Flat<Marker, Marker::Raw, Marker::Metadata>>,
    adds: Vec<Additive<Marker, Marker::Raw, Marker::Metadata>>,
    muls: Vec<Multiplicative<Marker, Marker::Raw, Marker::Metadata>>,
}

impl<Marker: StatMarker> View for Stat<Marker> {
    type V = StatData<Marker>;

    closed spec fn view(&self) -> StatData<Marker> {
        StatData {
            base: self.base,
            cached: self.cached,
            flats: self.flats@,
            adds: self.adds@,
            muls: self.muls@,
        }
    }
}

/// The derived value over empty modifier sequences is the base itself,
/// because the fold seeds are neutral.
pub proof fn lemma_derived_empty<R: RawNum>(base: R)
    ensures
        derived(base, Seq::<R>::empty(), Seq::<R>::empty(), Seq::<R>::empty()) == base,
{
    R::add_zero(base);
    R::mul_one(base);
}

/// Copies a vector of copyable elements, preserving contents exactly.
fn clone_vec<T: Copy>(v: &Vec<T>) -> (r: Vec<T>)
    ensures
        r@ == v@,
{
    let mut r: Vec<T> = Vec::new();
    let mut i: usize = 0;
    while i < v.len()
        invariant
            i <= v@.len(),
            r@ == v@.take(i as int),
        decreases v@.len() - i,
    {
        r.push(v[i]);
        proof {
            assert(v@.take(i as int).push(v@[i as int]) =~= v@.take(i as int + 1));
        }
        i = i + 1;
    }
    proof {
        assert(v@.take(v@.len() as int) =~= v@);
    }
    r
}

/// Finds the first element of `v` structurally equal to `x`.
fn find_first<Mod: Modifier>(v: &Vec<Mod>, x: &Mod) -> (r: Option<usize>)
    ensures
        match r {
            Some(i) => i < v@.len() && first_eq(v@, *x) == Some(i as int),
            None => first_eq(v@, *x) is None,
        },
{
    let mut i: usize = 0;
    while i < v.len()
        invariant
            i <= v@.len(),
            forall|j: int| 0 <= j < i ==> !mod_eq(v@[j], *x),
        decreases v@.len() - i,
    {
        if v[i].same_as(x) {
            proof {
                lemma_first_eq_witness(v@, *x, i as int);
            }
            return Some(i);
        }
        i = i + 1;
    }
    proof {
        lemma_first_eq_none(v@, *x);
    }
    None
}

/// Folds `add_value` over the raw values of the modifiers in `v`, in order,
/// starting from `seed`.
fn fold_add_vec<Mod: Modifier>(v: &Vec<Mod>, seed: Mod::Raw) -> (r: Mod::Raw)
    ensures
        r == fold_add(seed, raws(v@)),
{
    let mut acc = seed;
    let mut i: usize = 0;
    proof {
        assert(raws(v@).skip(0) =~= raws(v@));
    }
    while i < v.len()
        invariant
            i <= v@.len(),
            fold_add(acc, raws(v@).skip(i as int)) == fold_add(seed, raws(v@)),
        decreases v@.len() - i,
    {
        proof {
            assert(raws(v@).skip(i as int).drop_first() =~= raws(v@).skip(i as int + 1));
            assert(raws(v@).skip(i as int)[0] == v@[i as int].raw_spec());
        }
        acc = acc.add_value(v[i].raw());
        i = i + 1;
    }
    proof {
        assert(raws(v@).skip(v@.len() as int) =~= Seq::<Mod::Raw>::empty());
    }
    acc
}

/// Folds `mul_value` over the raw values of the modifiers in `v`, in order,
/// starting from `seed`.
fn fold_mul_vec<Mod: Modifier>(v: &Vec<Mod>, seed: Mod::Raw) -> (r: Mod::Raw)
    ensures
        r == fold_mul(seed, raws(v@)),
{
    let mut acc = seed;
    let mut i: usize = 0;
    proof {
        assert(raws(v@).skip(0) =~= raws(v@));
    }
    while i < v.len()
        invariant
            i <= v@.len(),
            fold_mul(acc, raws(v@).skip(i as int)) == fold_mul(seed, raws(v@)),
        decreases v@.len() - i,
    {
        proof {
            assert(raws(v@).skip(i as int).drop_first() =~= raws(v@).skip(i as int + 1));
            assert(raws(v@).skip(i as int)[0] == v@[i as int].raw_spec());
        }
        acc = acc.mul_value(v[i].raw());
        i = i + 1;
    }
    proof {
        assert(raws(v@).skip(v@.len() as int) =~= Seq::<Mod::Raw>::empty());
    }
    acc
}

impl<Marker: StatMarker> Stat<Marker> {
    /// Cache coherence, maintained by every operation.
    #[verifier::type_invariant]
    pub(crate) open spec fn cache_coherent(self) -> bool {
        self@.wf()
    }

    /// Builds a stat with the given base value and no modifiers. The cache is
    /// clean and already holds the base.
    pub fn with_base(base: Marker::Raw) -> (r: Self)
        ensures
            r@ == StatData::<Marker>::with_base(base),
    {
        proof {
            lemma_derived_empty(base);
        }
        Stat { base, cached: Some(base), flats: Vec::new(), adds: Vec::new(), muls: Vec::new() }
    }

    /// Returns an independent deep copy of the stat.
    pub fn build(&mut self) -> (r: Self)
        ensures
            r@ == old(self)@,
            final(self)@ == old(self)@,
    {
        self.clone()
    }

    /// Returns the base value; never recomputes.
    pub fn base(&self) -> (r: Marker::Raw)
        ensures
            r == self@.base,
    {
        self.base
    }

    /// Recomputes the cached derived value if the cache is dirty; otherwise
    /// does nothing. Idempotent.
    pub fn cache_value(&mut self) -> (r: &mut Self)
        ensures
            (*r)@ == old(self)@.recompute(),
            final(self)@ == (*final(r))@,
    {
        if self.cached.is_none() {
            let f = fold_add_vec(&self.flats, <Marker::Raw as RawNum>::zero());
            let a = fold_add_vec(&self.adds, <Marker::Raw as RawNum>::one());
            let m = fold_mul_vec(&self.muls, <Marker::Raw as RawNum>::one());
            let t = self.base.add_value(f).mul_value(a).mul_value(m);
            self.cached = Some(t);
        }
        self
    }

    /// Returns the cached derived value, absent when a mutation has occurred
    /// since the last recomputation. Never forces a recomputation.
    pub fn cached(&self) -> (r: Option<Marker::Raw>)
        ensures
            r == self@.cached,
    {
        self.cached
    }

    /// Appends a flat modifier and clears the cache.
    pub fn apply_flat(&mut self, flat: Flat<Marker, Marker::Raw, Marker::Metadata>) -> (r:
        &mut Self)
        ensures
            (*r)@ == old(self)@.apply_flat(flat),
            final(self)@ == (*final(r))@,
    {
        self.cached = None;
        let mut tmp: Vec<_> = Vec::new();
        std::mem::swap(&mut tmp, &mut self.flats);
        tmp.push(flat);
        self.flats = tmp;
        self
    }

    /// Converts a shared flat modifier to this marker and appends it.
    pub fn apply_flat_from_shared<T>(&mut self, flat: T) -> (r: &mut Self) where
        T: Shared<Marker, TargetModifier = Flat<Marker, Marker::Raw, Marker::Metadata>> + Modifier<
            Raw = Marker::Raw,
            Metadata = Marker::Metadata,
        >,

        ensures
            (*r)@.flats.len() == old(self)@.flats.len() + 1,
            (*r)@.flats.last().raw_spec() == flat.raw_spec(),
            (*r)@.flats.last().metadata_spec() == flat.metadata_spec(),
            (*r)@ == old(self)@.apply_flat((*r)@.flats.last()),
            final(self)@ == (*final(r))@,
    {
        let m = flat.share();
        self.apply_flat(m)
    }

    /// Appends an additive modifier and clears the cache.
    pub fn apply_add(&mut self, additive: Additive<Marker, Marker::Raw, Marker::Metadata>) -> (r:
        &mut Self)
        ensures
            (*r)@ == old(self)@.apply_add(additive),
            final(self)@ == (*final(r))@,
    {
        self.cached = None;
        let mut tmp: Vec<_> = Vec::new();
        std::mem::swap(&mut tmp, &mut self.adds);
        tmp.push(additive);
        self.adds = tmp;
        self
    }

    /// Converts a shared additive modifier to this marker and appends it.
    pub fn apply_add_from_shared<T>(&mut self, additive: T) -> (r: &mut Self) where
        T: Shared<Marker, TargetModifier = Additive<Marker, Marker::Raw, Marker::Metadata>> + Modifier<
            Raw = Marker::Raw,
            Metadata = Marker::Metadata,
        >,

        ensures
            (*r)@.adds.len() == old(self)@.adds.len() + 1,
            (*r)@.adds.last().raw_spec() == additive.raw_spec(),
            (*r)@.adds.last().metadata_spec() == additive.metadata_spec(),
            (*r)@ == old(self)@.apply_add((*r)@.adds.last()),
            final(self)@ == (*final(r))@,
    {
        let m = additive.share();
        self.apply_add(m)
    }

    /// Appends a multiplicative modifier and clears the cache.
    pub fn apply_mul(
        &mut self,
        multiplicative: Multiplicative<Marker, Marker::Raw, Marker::Metadata>,
    ) -> (r: &mut Self)
        ensures
            (*r)@ == old(self)@.apply_mul(multiplicative),
            final(self)@ == (*final(r))@,
    {
        self.cached = None;
        let mut tmp: Vec<_> = Vec::new();
        std::mem::swap(&mut tmp, &mut self.muls);
        tmp.push(multiplicative);
        self.muls = tmp;
        self
    }

    /// Converts a shared multiplicative modifier to this marker and appends
    /// it.
    pub fn apply_mul_from_shared<T>(&mut self, multiplicative: T) -> (r: &mut Self) where
        T: Shared<Marker, TargetModifier = Multiplicative<Marker, Marker::Raw, Marker::Metadata>> + Modifier<
            Raw = Marker::Raw,
            Metadata = Marker::Metadata,
        >,

        ensures
            (*r)@.muls.len() == old(self)@.muls.len() + 1,
            (*r)@.muls.last().raw_spec() == multiplicative.raw_spec(),
            (*r)@.muls.last().metadata_spec() == multiplicative.metadata_spec(),
            (*r)@ == old(self)@.apply_mul((*r)@.muls.last()),
            final(self)@ == (*final(r))@,
    {
        let m = multiplicative.share();
        self.apply_mul(m)
    }

    /// Removes the first flat modifier structurally equal to `flat` (swap
    /// removal) and clears the cache; a silent no-op when none is equal.
    pub fn remove_flat(&mut self, flat: Flat<Marker, Marker::Raw, Marker::Metadata>) -> (r:
        &mut Self)
        ensures
            (*r)@ == old(self)@.remove_flat(flat),
            final(self)@ == (*final(r))@,
    {
        match find_first(&self.flats, &flat) {
            Some(i) => {
                self.cached = None;
                let mut tmp: Vec<_> = Vec::new();
                std::mem::swap(&mut tmp, &mut self.flats);
                let _ = tmp.swap_remove(i);
                self.flats = tmp;
            },
            None => {},
        }
        self
    }

    /// Removes the first additive modifier structurally equal to `additive`
    /// (swap removal) and clears the cache; a silent no-op when none is
    /// equal.
    pub fn remove_add(&mut self, additive: Additive<Marker, Marker::Raw, Marker::Metadata>) -> (r:
        &mut Self)
        ensures
            (*r)@ == old(self)@.remove_add(additive),
            final(self)@ == (*final(r))@,
    {
        match find_first(&self.adds, &additive) {
            Some(i) => {
                self.cached = None;
                let mut tmp: Vec<_> = Vec::new();
                std::mem::swap(&mut tmp, &mut self.adds);
                let _ = tmp.swap_remove(i);
                self.adds = tmp;
            },
            None => {},
        }
        self
    }

    /// Removes the first multiplicative modifier structurally equal to
    /// `multiplicative` (swap removal) and clears the cache; a silent no-op
    /// when none is equal.
    pub fn remove_mul(
        &mut self,
        multiplicative: Multiplicative<Marker, Marker::Raw, Marker::Metadata>,
    ) -> (r: &mut Self)
        ensures
            (*r)@ == old(self)@.remove_mul(multiplicative),
            final(self)@ == (*final(r))@,
    {
        match find_first(&self.muls, &multiplicative) {
            Some(i) => {
                self.cached = None;
                let mut tmp: Vec<_> = Vec::new();
                std::mem::swap(&mut tmp, &mut self.muls);
                let _ = tmp.swap_remove(i);
                self.muls = tmp;
            },
            None => {},
        }
        self
    }

    /// Read-only view of the flat modifiers, in insertion order.
    pub fn flats(&self) -> (r: &Vec<Flat<Marker, Marker::Raw, Marker::Metadata>>)
        ensures
            r@ == self@.flats,
    {
        &self.flats
    }

    /// Read-only view of the additive modifiers, in insertion order.
    pub fn additives(&self) -> (r: &Vec<Additive<Marker, Marker::Raw, Marker::Metadata>>)
        ensures
            r@ == self@.adds,
    {
        &self.adds
    }

    /// Read-only view of the multiplicative modifiers, in insertion order.
    pub fn multiplicatives(&self) -> (r: &Vec<
        Multiplicative<Marker, Marker::Raw, Marker::Metadata>,
    >)
        ensures
            r@ == self@.muls,
    {
        &self.muls
    }
}

impl<Marker: StatMarker> Clone for Stat<Marker> {
    /// Deep copy: base, cache and all three modifier sequences are duplicated
    /// independently.
    fn clone(&self) -> (r: Self)
        ensures
            r@ == self@,
    {
        proof {
            use_type_invariant(self);
        }
        Stat {
            base: self.base,
            cached: self.cached,
            flats: clone_vec(&self.flats),
            adds: clone_vec(&self.adds),
            muls: clone_vec(&self.muls),
        }
    }
}

impl<Marker: StatMarker> Default for Stat<Marker> {
    /// A stat whose base is the additive neutral element, with a clean cache
    /// and no modifiers.
    fn default() -> (r: Self)
        ensures
            r@ == StatData::<Marker>::with_base(<Marker::Raw as RawNum>::zero_spec()),
    {
        Self::with_base(<Marker::Raw as RawNum>::zero())
    }
}

} // verus!

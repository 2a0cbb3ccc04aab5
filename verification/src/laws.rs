//! The laws of the stat entity, stated and proved over the abstract state
//! transitions that the executable operations are specified by.

use crate::modifier::{mod_eq, Additive, Flat, Modifier, Multiplicative};
use crate::num::RawNum;
use crate::stat::{derived, first_eq, fold_add, fold_mul, lemma_first_eq_props, lemma_fold_add_push,
    lemma_fold_mul_push, lemma_raws_push, raws, StatData, StatMarker};
use vstd::prelude::*;

verus! {

/// Idempotent caching: recomputing twice with no intervening mutation is the
/// same as recomputing once; in particular, both recomputations yield the
/// same cached value.
pub proof fn lemma_recompute_idempotent<Marker: StatMarker>(s: StatData<Marker>)
    ensures
        s.recompute().recompute() == s.recompute(),
        s.recompute().cached is Some,
{
}

/// Fold correctness: on a coherent state, the value cached by a
/// recomputation is exactly the documented fold — the base plus the sum of
/// the flat offsets, times the additive terms summed from one, times the
/// product of the multiplicative factors, in insertion order.
pub proof fn lemma_recompute_fold<Marker: StatMarker>(s: StatData<Marker>)
    requires
        s.wf(),
    ensures
        s.recompute().cached == Some(
            derived(s.base, raws(s.flats), raws(s.adds), raws(s.muls)),
        ),
{
}

/// Dirty-on-mutation, applying: any apply clears the cache, and the next
/// recomputation fills it from the new contents.
pub proof fn lemma_apply_dirties<Marker: StatMarker>(
    s: StatData<Marker>,
    f: Flat<Marker, Marker::Raw, Marker::Metadata>,
    a: Additive<Marker, Marker::Raw, Marker::Metadata>,
    u: Multiplicative<Marker, Marker::Raw, Marker::Metadata>,
)
    ensures
        s.apply_flat(f).cached is None,
        s.apply_add(a).cached is None,
        s.apply_mul(u).cached is None,
        s.apply_flat(f).recompute().cached == Some(s.apply_flat(f).total()),
        s.apply_add(a).recompute().cached == Some(s.apply_add(a).total()),
        s.apply_mul(u).recompute().cached == Some(s.apply_mul(u).total()),
{
}

/// Dirty-on-mutation, removing: a removal that finds a structurally equal
/// entry clears the cache, and the next recomputation fills it from the new
/// contents.
pub proof fn lemma_remove_hit_dirties<Marker: StatMarker>(
    s: StatData<Marker>,
    f: Flat<Marker, Marker::Raw, Marker::Metadata>,
    a: Additive<Marker, Marker::Raw, Marker::Metadata>,
    u: Multiplicative<Marker, Marker::Raw, Marker::Metadata>,
)
    ensures
        first_eq(s.flats, f) is Some ==> s.remove_flat(f).cached is None
            && s.remove_flat(f).recompute().cached == Some(s.remove_flat(f).total()),
        first_eq(s.adds, a) is Some ==> s.remove_add(a).cached is None
            && s.remove_add(a).recompute().cached == Some(s.remove_add(a).total()),
        first_eq(s.muls, u) is Some ==> s.remove_mul(u).cached is None
            && s.remove_mul(u).recompute().cached == Some(s.remove_mul(u).total()),
{
}

/// One modifier of each kind: starting from base `b` and applying one flat
/// `f`, one additive `a` and one multiplicative `u`, the recomputed value is
/// exactly `(b + f) * (1 + a) * (1 * u)`, where the seeds of the three folds
/// are the neutral elements.
pub proof fn lemma_one_of_each_total<Marker: StatMarker>(
    b: Marker::Raw,
    f: Flat<Marker, Marker::Raw, Marker::Metadata>,
    a: Additive<Marker, Marker::Raw, Marker::Metadata>,
    u: Multiplicative<Marker, Marker::Raw, Marker::Metadata>,
)
    ensures
        StatData::<Marker>::with_base(b).apply_flat(f).apply_add(a).apply_mul(
            u,
        ).recompute().cached == Some(
            b.add_spec(<Marker::Raw as RawNum>::zero_spec().add_spec(f.raw_spec())).mul_spec(
                <Marker::Raw as RawNum>::one_spec().add_spec(a.raw_spec()),
            ).mul_spec(<Marker::Raw as RawNum>::one_spec().mul_spec(u.raw_spec())),
        ),
{
    let z = <Marker::Raw as RawNum>::zero_spec();
    let o = <Marker::Raw as RawNum>::one_spec();
    let e = Seq::<Marker::Raw>::empty();
    let flats = Seq::<Flat<Marker, Marker::Raw, Marker::Metadata>>::empty().push(f);
    let adds = Seq::<Additive<Marker, Marker::Raw, Marker::Metadata>>::empty().push(a);
    let muls = Seq::<Multiplicative<Marker, Marker::Raw, Marker::Metadata>>::empty().push(u);
    lemma_raws_push(Seq::<Flat<Marker, Marker::Raw, Marker::Metadata>>::empty(), f);
    lemma_raws_push(Seq::<Additive<Marker, Marker::Raw, Marker::Metadata>>::empty(), a);
    lemma_raws_push(Seq::<Multiplicative<Marker, Marker::Raw, Marker::Metadata>>::empty(), u);
    assert(raws(Seq::<Flat<Marker, Marker::Raw, Marker::Metadata>>::empty()) =~= e);
    assert(raws(Seq::<Additive<Marker, Marker::Raw, Marker::Metadata>>::empty()) =~= e);
    assert(raws(Seq::<Multiplicative<Marker, Marker::Raw, Marker::Metadata>>::empty()) =~= e);
    lemma_fold_add_push(z, e, f.raw_spec());
    lemma_fold_add_push(o, e, a.raw_spec());
    lemma_fold_mul_push(o, e, u.raw_spec());
    assert(fold_add(z, raws(flats)) == z.add_spec(f.raw_spec()));
    assert(fold_add(o, raws(adds)) == o.add_spec(a.raw_spec()));
    assert(fold_mul(o, raws(muls)) == o.mul_spec(u.raw_spec()));
}

/// No-op-on-miss: removing a modifier that is structurally equal to no
/// present entry leaves the whole state — cache and all three sequences —
/// unchanged.
pub proof fn lemma_remove_miss_noop<Marker: StatMarker>(
    s: StatData<Marker>,
    f: Flat<Marker, Marker::Raw, Marker::Metadata>,
    a: Additive<Marker, Marker::Raw, Marker::Metadata>,
    u: Multiplicative<Marker, Marker::Raw, Marker::Metadata>,
)
    ensures
        (forall|j: int| 0 <= j < s.flats.len() ==> !mod_eq(s.flats[j], f)) ==> s.remove_flat(f)
            == s,
        (forall|j: int| 0 <= j < s.adds.len() ==> !mod_eq(s.adds[j], a)) ==> s.remove_add(a) == s,
        (forall|j: int| 0 <= j < s.muls.len() ==> !mod_eq(s.muls[j], u)) ==> s.remove_mul(u) == s,
{
    lemma_first_eq_props(s.flats, f);
    lemma_first_eq_props(s.adds, a);
    lemma_first_eq_props(s.muls, u);
}

} // verus!

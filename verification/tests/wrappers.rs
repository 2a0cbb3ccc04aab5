use mini_stat::frac::Frac;
use mini_stat::prelude::{Additive, AdditiveAll, Flat, FlatAll, MiniStat, MiniStatSync, Modifier,
    Multiplicative, MultiplicativeAll, Stat, StatMarker};

struct Dummy;

impl StatMarker for Dummy {
    type Raw = Frac;

    type Metadata = u64;
}

struct IntMark;

impl StatMarker for IntMark {
    type Raw = i64;

    type Metadata = u64;
}

#[test]
fn specs_refcell_specs() {
    // Base 3 with flats 1, 2, 3: (3+1+2+3)*1*1 = 9.
    let mut stat = MiniStat::<IntMark>::with_base(3);
    assert_eq!(stat.cached(), 3);

    stat.stat_mut()
        .apply_flat(Flat::from_raw(1))
        .apply_flat(Flat::from_raw(2))
        .apply_flat(Flat::from_raw(3));
    assert_eq!(stat.cached(), 9);

    // Base 6 with additive terms 0.1, 0.1, 0.3: 6*(1+0.1+0.1+0.3) = 9.
    let mut stat = MiniStat::<Dummy>::with_base(Frac::new(6, 1));
    assert!(stat.cached().same_value(&Frac::new(6, 1)));

    stat.stat_mut()
        .apply_add(Additive::from_raw(Frac::new(1, 10)))
        .apply_add(Additive::from_raw(Frac::new(1, 10)))
        .apply_add(Additive::from_raw(Frac::new(3, 10)));
    assert!(stat.cached().same_value(&Frac::new(9, 1)));

    // Base 1 with multiplicative factors 0.5, 3, 6: 1*1*(0.5*3*6) = 9.
    let mut stat = MiniStat::<Dummy>::with_base(Frac::new(1, 1));
    assert!(stat.cached().same_value(&Frac::new(1, 1)));

    stat.stat_mut()
        .apply_mul(Multiplicative::from_raw(Frac::new(1, 2)))
        .apply_mul(Multiplicative::from_raw(Frac::new(3, 1)))
        .apply_mul(Multiplicative::from_raw(Frac::new(6, 1)))
        .cache_value();
    assert!(stat.cached().same_value(&Frac::new(9, 1)));

    // Base 0 with one of each kind: (0+1)*(1+0.5)*6 = 9.
    let mut stat = MiniStat::<Dummy>::with_base(Frac::new(0, 1));
    assert!(stat.cached().same_value(&Frac::new(0, 1)));

    stat.stat_mut()
        .apply_flat(Flat::from_raw(Frac::new(1, 1)))
        .apply_add(Additive::from_raw(Frac::new(1, 2)))
        .apply_mul(Multiplicative::from_raw(Frac::new(6, 1)))
        .cache_value();
    assert!(stat.cached().same_value(&Frac::new(9, 1)));

    // Removing an additive term that was never applied is a silent no-op.
    stat.remove_add(Additive::from_raw(Frac::new(1, 1)));
    assert!(stat.cached().same_value(&Frac::new(9, 1)));

    // Removing the 0.5 additive term recomputes: (0+1)*1*6 = 6.
    stat.remove_add(Additive::from_raw(Frac::new(1, 2)));
    assert!(stat.cached().same_value(&Frac::new(6, 1)));
}

#[test]
fn wrapper_equivalence() {
    // The same operations in the same order yield the same derived value from
    // the exclusive-owner wrapper and the lock-guarded wrapper.
    let mut a = MiniStat::<IntMark>::with_base(10);
    let b = MiniStatSync::<IntMark>::with_base(10);

    a.apply_flat(Flat::from_raw(5));
    b.apply_flat(Flat::from_raw(5));
    a.apply_flat(Flat::from_raw(-2));
    b.apply_flat(Flat::from_raw(-2));
    a.apply_add(Additive::from_raw(2));
    b.apply_add(Additive::from_raw(2));
    a.apply_mul(Multiplicative::from_raw(3));
    b.apply_mul(Multiplicative::from_raw(3));
    assert_eq!(a.cached(), b.cached());
    assert_eq!(a.cached(), (10 + 5 - 2) * (1 + 2) * 3);

    a.remove_flat(Flat::from_raw(5));
    b.remove_flat(Flat::from_raw(5));
    assert_eq!(a.cached(), b.cached());

    // A removal that misses is a no-op in both wrappers.
    a.remove_mul(Multiplicative::from_raw(7));
    b.remove_mul(Multiplicative::from_raw(7));
    assert_eq!(a.cached(), b.cached());
    assert_eq!(a.base(), b.base());
}

#[test]
fn wrapper_single_new_and_base() {
    let mut inner = Stat::<IntMark>::with_base(4);
    inner.apply_flat(Flat::from_raw(1));
    let mut w = MiniStat::new(inner);
    assert_eq!(w.base(), 4);
    assert_eq!(w.cached(), 5);
}

#[test]
fn wrapper_sync_batched_mutation() {
    let w = MiniStatSync::<IntMark>::with_base(2);
    assert_eq!(w.base(), 2);

    // Hold the lock across a whole read-then-write sequence.
    let (mut s, handle) = w.stat_mut();
    s.apply_flat(Flat::from_raw(1));
    s.apply_mul(Multiplicative::from_raw(4));
    handle.release_write(s);

    assert_eq!(w.cached(), (2 + 1) * 4);
    assert_eq!(w.base(), 2);
}

#[test]
fn wrapper_sync_from_shared() {
    let w = MiniStatSync::<IntMark>::with_base(5);
    w.apply_flat_from_shared(FlatAll::<i64, u64>::from_raw(1));
    w.apply_add_from_shared(AdditiveAll::<i64, u64>::from_raw(1));
    w.apply_mul_from_shared(MultiplicativeAll::<i64, u64>::from_raw(2));
    assert_eq!(w.cached(), (5 + 1) * (1 + 1) * 2);
    w.remove_add(Additive::from_raw(1));
    assert_eq!(w.cached(), (5 + 1) * 2);
}

#[test]
fn wrapper_single_from_shared() {
    let mut w = MiniStat::<IntMark>::with_base(5);
    w.apply_flat_from_shared(FlatAll::<i64, u64>::from_raw(1));
    w.apply_add_from_shared(AdditiveAll::<i64, u64>::from_raw(1));
    w.apply_mul_from_shared(MultiplicativeAll::<i64, u64>::from_raw(2));
    assert_eq!(w.cached(), (5 + 1) * (1 + 1) * 2);
    w.remove_flat(Flat::from_raw(1));
    w.remove_mul(Multiplicative::from_raw(2));
    assert_eq!(w.cached(), 5 * 2);
}

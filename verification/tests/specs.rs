use mini_stat::frac::Frac;
use mini_stat::prelude::{Additive, Flat, FlatAll, Modifier, Multiplicative, Shared, Stat, StatMarker};

struct Dummy;

impl StatMarker for Dummy {
    type Raw = i64;

    type Metadata = u64;
}

struct FracDummy;

impl StatMarker for FracDummy {
    type Raw = Frac;

    type Metadata = u64;
}

#[test]
fn specs_specs() {
    // Base 3 with flats 1, 2, 3: (3+1+2+3)*1*1 = 9.
    let mut stat = Stat::<Dummy>::with_base(3);
    assert_eq!(stat.cached(), Some(3));

    stat.apply_flat(Flat::from_raw(1))
        .apply_flat(Flat::from_raw(2))
        .apply_flat(Flat::from_raw(3))
        .cache_value();
    assert_eq!(stat.cached(), Some(9));

    // Base 6 with additive terms 0.1, 0.1, 0.3: 6*(1+0.1+0.1+0.3) = 9.
    let mut stat = Stat::<FracDummy>::with_base(Frac::new(6, 1));
    assert!(stat.cached().unwrap().same_value(&Frac::new(6, 1)));

    stat.apply_add(Additive::from_raw(Frac::new(1, 10)))
        .apply_add(Additive::from_raw(Frac::new(1, 10)))
        .apply_add(Additive::from_raw(Frac::new(3, 10)))
        .cache_value();
    assert!(stat.cached().unwrap().same_value(&Frac::new(9, 1)));

    // Base 1 with multiplicative factors 0.5, 3, 6: 1*1*(0.5*3*6) = 9.
    let mut stat = Stat::<FracDummy>::with_base(Frac::new(1, 1));
    assert!(stat.cached().unwrap().same_value(&Frac::new(1, 1)));

    stat.apply_mul(Multiplicative::from_raw(Frac::new(1, 2)))
        .apply_mul(Multiplicative::from_raw(Frac::new(3, 1)))
        .apply_mul(Multiplicative::from_raw(Frac::new(6, 1)))
        .cache_value();
    assert!(stat.cached().unwrap().same_value(&Frac::new(9, 1)));

    // Base 0 with one of each kind: (0+1)*(1+0.5)*6 = 9.
    let mut stat = Stat::<FracDummy>::with_base(Frac::new(0, 1));
    assert!(stat.cached().unwrap().same_value(&Frac::new(0, 1)));

    stat.apply_flat(Flat::from_raw(Frac::new(1, 1)))
        .apply_add(Additive::from_raw(Frac::new(1, 2)))
        .apply_mul(Multiplicative::from_raw(Frac::new(6, 1)))
        .cache_value();
    assert!(stat.cached().unwrap().same_value(&Frac::new(9, 1)));

    // Removing an additive term that was never applied is a silent no-op.
    stat.remove_add(Additive::from_raw(Frac::new(1, 1))).cache_value();
    assert!(stat.cached().unwrap().same_value(&Frac::new(9, 1)));

    // Removing the 0.5 additive term recomputes: (0+1)*1*6 = 6.
    stat.remove_add(Additive::from_raw(Frac::new(1, 2))).cache_value();
    assert!(stat.cached().unwrap().same_value(&Frac::new(6, 1)));
}

struct A;

impl StatMarker for A {
    type Raw = i64;

    type Metadata = u64;
}

struct B;

impl StatMarker for B {
    type Raw = i64;

    type Metadata = u64;
}

#[test]
fn two_stats_shared_mod() {
    let mut a = Stat::<A>::with_base(1);
    let mut b = Stat::<B>::with_base(3);

    let modifier = FlatAll::<i64, u64>::from_raw(2);

    a.apply_flat(modifier.share());

    assert_eq!(a.cache_value().cached(), Some(3));

    b.apply_flat(modifier.share());

    assert_eq!(b.cache_value().cached(), Some(5));

    a.apply_flat_from_shared(modifier);

    assert_eq!(a.cache_value().cached(), Some(5));

    b.apply_flat_from_shared(modifier);

    assert_eq!(b.cache_value().cached(), Some(7));
}

pub struct SomeGroup;

impl StatMarker for SomeGroup {
    type Raw = i64;

    type Metadata = u64;
}

impl Shared<A> for Flat<SomeGroup, i64, u64> {
    type TargetModifier = Flat<A, i64, u64>;

    fn share(self) -> Self::TargetModifier {
        Flat::<A, i64, u64>::from_raw(self.raw())
    }
}

impl Shared<B> for Flat<SomeGroup, i64, u64> {
    type TargetModifier = Flat<B, i64, u64>;

    fn share(self) -> Self::TargetModifier {
        Flat::<B, i64, u64>::from_raw(self.raw())
    }
}

#[test]
fn custom_group() {
    let mut a = Stat::<A>::with_base(1);
    let mut b = Stat::<B>::with_base(3);

    let modifier = Flat::<SomeGroup, i64, u64>::from_raw(2);

    a.apply_flat(Shared::<A>::share(modifier));

    assert_eq!(a.cache_value().cached(), Some(3));

    b.apply_flat(Shared::<B>::share(modifier));

    assert_eq!(b.cache_value().cached(), Some(5));

    a.apply_flat_from_shared(modifier);

    assert_eq!(a.cache_value().cached(), Some(5));

    b.apply_flat_from_shared(modifier);

    assert_eq!(b.cache_value().cached(), Some(7));
}

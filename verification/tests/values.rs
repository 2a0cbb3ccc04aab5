use mini_stat::frac::Frac;
use mini_stat::num::{EqValue, NoMeta, RawNum};
use mini_stat::prelude::{Additive, Flat, Modifier, Multiplicative, StatMarker};

struct Mark;

impl StatMarker for Mark {
    type Raw = i64;

    type Metadata = u64;
}

#[test]
fn frac_arithmetic() {
    let half = Frac::new(1, 2);
    let third = Frac::new(1, 3);

    // 1/2 + 1/3 = 5/6, by cross multiplication.
    assert_eq!(half.add_value(third), Frac::new(5, 6));
    // 1/2 * 1/3 = 1/6.
    assert_eq!(half.mul_value(third), Frac::new(1, 6));

    assert_eq!(Frac::zero(), Frac::new(0, 1));
    assert_eq!(Frac::one(), Frac::new(1, 1));

    // The neutral elements really are neutral, representation included.
    assert_eq!(half.add_value(Frac::zero()), half);
    assert_eq!(half.mul_value(Frac::one()), half);
}

#[test]
fn frac_same_value_ignores_representation() {
    let half = Frac::new(1, 2);
    let two_quarters = Frac::new(2, 4);

    // Structurally different, mathematically equal.
    assert!(half != two_quarters);
    assert!(!half.eq_value(&two_quarters));
    assert!(half.same_value(&two_quarters));
    assert!(!half.same_value(&Frac::new(1, 3)));
}

#[test]
fn raw_num_i64_wraps() {
    assert_eq!(5i64.add_value(7), 12);
    assert_eq!(5i64.mul_value(7), 35);
    assert_eq!(i64::MAX.add_value(1), i64::MIN);
    assert_eq!(i64::zero(), 0);
    assert_eq!(i64::one(), 1);
    assert!(3i64.eq_value(&3));
    assert!(!3i64.eq_value(&4));
}

#[test]
fn eq_value_meta_types() {
    assert!(7u64.eq_value(&7));
    assert!(!7u64.eq_value(&8));
    assert!(true.eq_value(&true));
    assert!(!true.eq_value(&false));
    assert!(NoMeta.eq_value(&NoMeta));
}

#[test]
fn modifier_construction_and_equality() {
    let a = Flat::<Mark, i64, u64>::from_raw(4);
    assert_eq!(a.raw(), 4);

    let b = Flat::<Mark, i64, u64>::from(4);
    assert!(a == b);
    assert!(a == a.clone());
    assert!(a != Flat::from_raw(5));

    let c = Additive::<Mark, i64, u64>::from_raw(9);
    assert_eq!(c.raw(), 9);
    assert!(c == Additive::from(9));

    let d = Multiplicative::<Mark, i64, u64>::from_raw(2);
    assert_eq!(d.raw(), 2);
    assert!(d == Multiplicative::from(2));
}

#[test]
fn modifier_defaults_are_fold_seeds() {
    // Flat folds by summation from zero; the additive and multiplicative
    // kinds fold from one.
    assert_eq!(Flat::<Mark, i64, u64>::default().raw(), 0);
    assert_eq!(Additive::<Mark, i64, u64>::default().raw(), 1);
    assert_eq!(Multiplicative::<Mark, i64, u64>::default().raw(), 1);

    assert_eq!(Flat::<Mark, Frac, u64>::default().raw(), Frac::new(0, 1));
    assert_eq!(Additive::<Mark2, Frac, u64>::default().raw(), Frac::new(1, 1));
}

struct Mark2;

impl StatMarker for Mark2 {
    type Raw = Frac;

    type Metadata = u64;
}

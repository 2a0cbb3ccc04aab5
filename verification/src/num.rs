use vstd::prelude::*;

verus! {

/// A value that can be compared for equality in executable code, with the
/// result reflecting specification-level equality.
///
/// Modifier metadata only needs to be copyable, comparable and printable for
/// diagnostics, so this is the whole contract a metadata type must satisfy.
pub trait EqValue: Sized + Copy + core::fmt::Debug {
    /// Decides specification-level equality of two values.
    fn eq_value(&self, other: &Self) -> (r: bool)
        ensures
            r == (*self == *other),
    ;
}

/// The numeric contract a raw stat value must satisfy: copyable, comparable,
/// and closed under total addition and multiplication, with neutral elements
/// for both operations.
///
/// The two operations are given by specification functions (`add_spec`,
/// `mul_spec`) that the executable operations must match exactly, and the
/// neutral elements really are neutral (`add_zero`, `mul_one`). Nothing else
/// is assumed: the fold over modifiers is stated verbatim in terms of these
/// operations.
pub trait RawNum: EqValue {
    /// The additive neutral element, used as the seed of the flat-modifier fold.
    spec fn zero_spec() -> Self;

    /// The multiplicative neutral element, used as the seed of the additive-
    /// and multiplicative-modifier folds.
    spec fn one_spec() -> Self;

    /// Specification-level addition.
    spec fn add_spec(self, other: Self) -> Self;

    /// Specification-level multiplication.
    spec fn mul_spec(self, other: Self) -> Self;

    /// `zero` is a right identity of addition.
    proof fn add_zero(x: Self)
        ensures
            x.add_spec(Self::zero_spec()) == x,
    ;

    /// `one` is a right identity of multiplication.
    proof fn mul_one(x: Self)
        ensures
            x.mul_spec(Self::one_spec()) == x,
    ;

    /// Returns the additive neutral element.
    fn zero() -> (r: Self)
        ensures
            r == Self::zero_spec(),
    ;

    /// Returns the multiplicative neutral element.
    fn one() -> (r: Self)
        ensures
            r == Self::one_spec(),
    ;

    /// Total addition, exactly `add_spec`.
    fn add_value(self, other: Self) -> (r: Self)
        ensures
            r == self.add_spec(other),
    ;

    /// Total multiplication, exactly `mul_spec`.
    fn mul_value(self, other: Self) -> (r: Self)
        ensures
            r == self.mul_spec(other),
    ;
}

/// Multiplying by one never wraps: `wrapping_mul(x, 1) == x`.
pub(crate) proof fn lemma_i64_wrapping_mul_one(x: i64)
    ensures
        x.wrapping_mul(1) == x,
{
    assert(x * 1 == x);
    if x >= 0 {
        assert((x as int) % 0x1_0000_0000_0000_0000int == x as int);
    } else {
        assert((x as int) % 0x1_0000_0000_0000_0000int == x + 0x1_0000_0000_0000_0000int);
    }
}

impl EqValue for i64 {
    fn eq_value(&self, other: &Self) -> (r: bool)
        ensures
            r == (*self == *other),
    {
        *self == *other
    }
}

/// `i64` satisfies the numeric contract with wrapping arithmetic: addition and
/// multiplication are total, and overflow wraps around rather than being
/// detected, mirroring the undetected numeric degradation the design allows.
impl RawNum for i64 {
    open spec fn zero_spec() -> Self {
        0
    }

    open spec fn one_spec() -> Self {
        1
    }

    open spec fn add_spec(self, other: Self) -> Self {
        self.wrapping_add(other)
    }

    open spec fn mul_spec(self, other: Self) -> Self {
        self.wrapping_mul(other)
    }

    proof fn add_zero(x: Self) {
    }

    proof fn mul_one(x: Self) {
        lemma_i64_wrapping_mul_one(x);
    }

    fn zero() -> (r: Self) {
        0
    }

    fn one() -> (r: Self) {
        1
    }

    fn add_value(self, other: Self) -> (r: Self) {
        self.wrapping_add(other)
    }

    fn mul_value(self, other: Self) -> (r: Self) {
        self.wrapping_mul(other)
    }
}

impl EqValue for u64 {
    fn eq_value(&self, other: &Self) -> (r: bool)
        ensures
            r == (*self == *other),
    {
        *self == *other
    }
}

impl EqValue for bool {
    fn eq_value(&self, other: &Self) -> (r: bool)
        ensures
            r == (*self == *other),
    {
        *self == *other
    }
}

/// The empty metadata type, for stats whose modifiers carry no side-channel
/// value.
#[derive(Clone, Copy, PartialEq, Eq, Structural, Debug)]
pub struct NoMeta;

impl EqValue for NoMeta {
    fn eq_value(&self, other: &Self) -> (r: bool)
        ensures
            r == (*self == *other),
    {
        true
    }
}

} // verus!

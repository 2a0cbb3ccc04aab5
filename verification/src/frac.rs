use crate::num::{EqValue, RawNum};
use vstd::prelude::*;

verus! {

/// An exact fraction `num / den` over machine integers.
///
/// Fractions satisfy the numeric contract: addition and multiplication use
/// the usual cross-multiplication formulas with wrapping component
/// arithmetic, so both operations are total and exact whenever no component
/// wraps. Equality of modifiers is structural (same numerator, same
/// denominator); `same_value` decides mathematical equality of the
/// represented numbers.
#[derive(Clone, Copy, PartialEq, Eq, Structural, Debug)]
pub struct Frac {
    pub num: i64,
    pub den: i64,
}

impl Frac {
    /// Builds the fraction `num / den`.
    pub fn new(num: i64, den: i64) -> (r: Self)
        ensures
            r == (Frac { num, den }),
    {
        Frac { num, den }
    }

    /// Two fractions represent the same number when they cross-multiply to
    /// equal products.
    pub open spec fn same_value_spec(self, other: Self) -> bool {
        self.num * other.den == other.num * self.den
    }

    /// Decides whether two fractions represent the same number, regardless of
    /// their representation.
    pub fn same_value(&self, other: &Self) -> (r: bool)
        ensures
            r == self.same_value_spec(*other),
    {
        proof {
            lemma_i64_prod_fits_i128(self.num as int, other.den as int);
            lemma_i64_prod_fits_i128(other.num as int, self.den as int);
        }
        let a: i128 = (self.num as i128) * (other.den as i128);
        let b: i128 = (other.num as i128) * (self.den as i128);
        a == b
    }
}

/// The product of two `i64` values always fits in an `i128`.
proof fn lemma_i64_prod_fits_i128(a: int, b: int)
    requires
        i64::MIN <= a <= i64::MAX,
        i64::MIN <= b <= i64::MAX,
    ensures
        i128::MIN <= a * b <= i128::MAX,
{
    assert(i128::MIN <= a * b <= i128::MAX) by (nonlinear_arith)
        requires
            -0x8000_0000_0000_0000 <= a <= 0x7fff_ffff_ffff_ffff,
            -0x8000_0000_0000_0000 <= b <= 0x7fff_ffff_ffff_ffff,
    ;
}

impl EqValue for Frac {
    fn eq_value(&self, other: &Self) -> (r: bool)
        ensures
            r == (*self == *other),
    {
        *self == *other
    }
}

impl RawNum for Frac {
    open spec fn zero_spec() -> Self {
        Frac { num: 0, den: 1 }
    }

    open spec fn one_spec() -> Self {
        Frac { num: 1, den: 1 }
    }

    open spec fn add_spec(self, other: Self) -> Self {
        Frac {
            num: self.num.wrapping_mul(other.den).wrapping_add(other.num.wrapping_mul(self.den)),
            den: self.den.wrapping_mul(other.den),
        }
    }

    open spec fn mul_spec(self, other: Self) -> Self {
        Frac { num: self.num.wrapping_mul(other.num), den: self.den.wrapping_mul(other.den) }
    }

    proof fn add_zero(x: Self) {
        crate::num::lemma_i64_wrapping_mul_one(x.num);
        crate::num::lemma_i64_wrapping_mul_one(x.den);
        assert(0i64.wrapping_mul(x.den) == 0) by {
            assert(0 * x.den == 0);
        }
    }

    proof fn mul_one(x: Self) {
        crate::num::lemma_i64_wrapping_mul_one(x.num);
        crate::num::lemma_i64_wrapping_mul_one(x.den);
    }

    fn zero() -> (r: Self) {
        Frac { num: 0, den: 1 }
    }

    fn one() -> (r: Self) {
        Frac { num: 1, den: 1 }
    }

    fn add_value(self, other: Self) -> (r: Self) {
        Frac {
            num: self.num.wrapping_mul(other.den).wrapping_add(other.num.wrapping_mul(self.den)),
            den: self.den.wrapping_mul(other.den),
        }
    }

    fn mul_value(self, other: Self) -> (r: Self) {
        Frac { num: self.num.wrapping_mul(other.num), den: self.den.wrapping_mul(other.den) }
    }
}

} // verus!

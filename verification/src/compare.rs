//! Comparison of two ratios by cross multiplication, without reducing them.

use crate::error::RatioError;
use crate::euclid::abs;
use crate::fraction::{fits, sign, Fraction};
use crate::ratio::StaticRatio;
use vstd::prelude::*;

verus! {

/// The absolute value of `d`, where `i128` holds it.
fn checked_abs(d: i128) -> (r: Option<i128>)
    ensures
        match r {
            Some(a) => a == abs(d as int),
            None => !fits(abs(d as int) as int),
        },
{
    if d > 0 {
        Some(d)
    } else {
        0i128.checked_sub(d)
    }
}

/// `v` with the sign of the denominator `d` applied to it, where `i128` holds
/// the outcome.
fn checked_signed(d: i128, v: i128) -> (r: Option<i128>)
    ensures
        match r {
            Some(s) => s == sign(d as int) * v,
            None => !fits(sign(d as int) * v),
        },
{
    let unit: i128 = if d > 0 {
        1
    } else {
        -1
    };
    unit.checked_mul(v)
}

/// Helper type for comparing two rational constants.
///
/// The operands may report a denominator of either sign, and need not be
/// reduced.
#[derive(Debug)]
pub struct RationalCmp<X: StaticRatio, Y: StaticRatio> {
    lhs: X,
    rhs: Y,
    equal: bool,
    lesser: bool,
}

impl<X: StaticRatio, Y: StaticRatio> RationalCmp<X, Y> {
    #[verifier::type_invariant]
    spec fn well_formed(&self) -> bool {
        &&& self.equal == self.lhs.fraction().equal(self.rhs.fraction())
        &&& self.lesser == self.lhs.fraction().lesser(self.rhs.fraction())
    }

    /// The first operand.
    pub closed spec fn lhs(&self) -> X {
        self.lhs
    }

    /// The second operand.
    pub closed spec fn rhs(&self) -> Y {
        self.rhs
    }

    /// Compares `lhs` with `rhs`.
    ///
    /// Fails with `ArithmeticOverflow` where one of the products that the
    /// comparison takes, or the absolute value of a denominator, leaves the
    /// range of `i128`.
    pub fn new(lhs: X, rhs: Y) -> (r: Result<Self, RatioError>)
        ensures
            match r {
                Ok(c) => {
                    &&& c.lhs() == lhs
                    &&& c.rhs() == rhs
                    &&& lhs.fraction().comparable(rhs.fraction())
                },
                Err(e) => {
                    &&& e == RatioError::ArithmeticOverflow
                    &&& !lhs.fraction().comparable(rhs.fraction())
                },
            },
    {
        let n1: i128 = lhs.numerator();
        let d1: i128 = lhs.denominator();
        let n2: i128 = rhs.numerator();
        let d2: i128 = rhs.denominator();
        match (n1.checked_mul(d2), n2.checked_mul(d1), checked_abs(d1), checked_abs(d2)) {
            (Some(cross1), Some(cross2), Some(abs1), Some(abs2)) => {
                match (n1.checked_mul(abs2), n2.checked_mul(abs1)) {
                    (Some(scaled1), Some(scaled2)) => {
                        match (checked_signed(d1, scaled1), checked_signed(d2, scaled2)) {
                            (Some(signed1), Some(signed2)) => {
                                proof {
                                    lemma_signed_cross_product(lhs.fraction(), rhs.fraction());
                                    lemma_signed_cross_product(rhs.fraction(), lhs.fraction());
                                }
                                Ok(
                                    RationalCmp {
                                        lhs,
                                        rhs,
                                        equal: cross1 == cross2,
                                        lesser: signed1 < signed2,
                                    },
                                )
                            },
                            _ => Err(RatioError::ArithmeticOverflow),
                        }
                    },
                    _ => Err(RatioError::ArithmeticOverflow),
                }
            },
            _ => Err(RatioError::ArithmeticOverflow),
        }
    }

    /// Equals to `true` if the operands represent equal values.
    pub fn equal(&self) -> (b: bool)
        ensures
            b == self.lhs().fraction().equal(self.rhs().fraction()),
    {
        proof {
            use_type_invariant(self);
        }
        self.equal
    }

    /// Equals to `true` if the operands represent unequal values.
    pub fn not_equal(&self) -> (b: bool)
        ensures
            b == !self.lhs().fraction().equal(self.rhs().fraction()),
    {
        !self.equal()
    }

    /// Equals to `true` if the first operand represents a number that is
    /// smaller than the one the second represents.
    pub fn lesser(&self) -> (b: bool)
        ensures
            b == self.lhs().fraction().lesser(self.rhs().fraction()),
    {
        proof {
            use_type_invariant(self);
        }
        self.lesser
    }

    /// Equals to `true` if the first operand represents a number that is
    /// bigger than the one the second represents.
    pub fn greater(&self) -> (b: bool)
        ensures
            b == self.lhs().fraction().greater(self.rhs().fraction()),
    {
        !self.equal() && !self.lesser()
    }

    /// Equals to `true` if the first operand represents a number that is no
    /// smaller than the one the second represents.
    pub fn greater_or_equal(&self) -> (b: bool)
        ensures
            b == !self.lhs().fraction().lesser(self.rhs().fraction()),
    {
        !self.lesser()
    }

    /// Equals to `true` if the first operand represents a number that is no
    /// bigger than the one the second represents.
    pub fn lesser_or_equal(&self) -> (b: bool)
        ensures
            b == (self.lhs().fraction().lesser(self.rhs().fraction())
                || self.lhs().fraction().equal(self.rhs().fraction())),
    {
        self.lesser() || self.equal()
    }
}

impl<X: StaticRatio + Copy, Y: StaticRatio + Copy> Clone for RationalCmp<X, Y> {
    fn clone(&self) -> (r: Self)
        ensures
            r == *self,
    {
        *self
    }
}

impl<X: StaticRatio + Copy, Y: StaticRatio + Copy> Copy for RationalCmp<X, Y> {

}

/// The numerator of `a`, scaled by the absolute value of the denominator of
/// `b` and then given the sign of its own denominator, is the cross product
/// of the canonical forms.
proof fn lemma_signed_cross_product(a: Fraction, b: Fraction)
    requires
        a.den != 0,
        b.den != 0,
    ensures
        sign(a.den) * (a.num * abs(b.den)) == a.canonical().num * b.canonical().den,
{
    assert(1 * (a.num * abs(b.den)) == a.num * abs(b.den));
    assert((-1) * (a.num * abs(b.den)) == (-a.num) * abs(b.den)) by (nonlinear_arith);
}

} // verus!

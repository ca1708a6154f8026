//! The mathematical model: fractions of unbounded integers, and what the
//! operations on ratios mean on them.

use crate::euclid::{abs, spec_gcd};
use vstd::prelude::*;

verus! {

/// A numerator over a denominator, both mathematical integers. Distinct
/// fractions may denote the same number: `1/-1`, `-1/1` and `2/-2` do.
pub struct Fraction {
    pub num: int,
    pub den: int,
}

/// `v` lies within the range of `i128`.
pub open spec fn fits(v: int) -> bool {
    i128::MIN <= v <= i128::MAX
}

/// `1` for a positive denominator, `-1` otherwise.
pub open spec fn sign(d: int) -> int {
    if d > 0 {
        1
    } else {
        -1
    }
}

impl Fraction {
    /// The fraction `num / den`.
    pub open spec fn new(num: int, den: int) -> Fraction {
        Fraction { num, den }
    }

    /// Both parts lie within the range of `i128`.
    pub open spec fn representable(self) -> bool {
        fits(self.num) && fits(self.den)
    }

    /// The same number with the sign folded into the numerator, so that the
    /// denominator is positive.
    pub open spec fn canonical(self) -> Fraction {
        if self.den > 0 {
            self
        } else {
            Fraction { num: -self.num, den: -self.den }
        }
    }

    /// The greatest common divisor of the canonical numerator and denominator.
    pub open spec fn gcd_value(self) -> nat {
        spec_gcd(self.canonical().num, self.canonical().den)
    }

    /// The canonical form divided through by its greatest common divisor.
    pub open spec fn reduced(self) -> Fraction {
        let c = self.canonical();
        let g = self.gcd_value() as int;
        Fraction { num: c.num / g, den: c.den / g }
    }

    /// Numerator and denominator have no common divisor but one.
    pub open spec fn irreducible(self) -> bool {
        self.gcd_value() == 1
    }

    /// `N1*D2 + D1*N2` over `D1*D2`, not reduced.
    pub open spec fn sum(self, rhs: Fraction) -> Fraction {
        Fraction { num: self.num * rhs.den + self.den * rhs.num, den: self.den * rhs.den }
    }

    /// `N1*D2 - D1*N2` over `D1*D2`, not reduced.
    pub open spec fn difference(self, rhs: Fraction) -> Fraction {
        Fraction { num: self.num * rhs.den - self.den * rhs.num, den: self.den * rhs.den }
    }

    /// `N1*N2` over `D1*D2`, not reduced.
    pub open spec fn product(self, rhs: Fraction) -> Fraction {
        Fraction { num: self.num * rhs.num, den: self.den * rhs.den }
    }

    /// `N1*D2` over `D1*N2`, not reduced; the denominator takes the sign of
    /// `N2`.
    pub open spec fn quotient(self, rhs: Fraction) -> Fraction {
        Fraction { num: self.num * rhs.den, den: self.den * rhs.num }
    }

    /// Every step of computing the sum stays within `i128`.
    pub open spec fn sum_fits(self, rhs: Fraction) -> bool {
        &&& fits(self.num * rhs.den)
        &&& fits(self.den * rhs.num)
        &&& fits(self.num * rhs.den + self.den * rhs.num)
        &&& fits(self.den * rhs.den)
    }

    /// Every step of computing the difference stays within `i128`.
    pub open spec fn difference_fits(self, rhs: Fraction) -> bool {
        &&& fits(self.num * rhs.den)
        &&& fits(self.den * rhs.num)
        &&& fits(self.num * rhs.den - self.den * rhs.num)
        &&& fits(self.den * rhs.den)
    }

    /// Both products of the product stay within `i128`.
    pub open spec fn product_fits(self, rhs: Fraction) -> bool {
        &&& fits(self.num * rhs.num)
        &&& fits(self.den * rhs.den)
    }

    /// Both products of the quotient stay within `i128`.
    pub open spec fn quotient_fits(self, rhs: Fraction) -> bool {
        &&& fits(self.num * rhs.den)
        &&& fits(self.den * rhs.num)
    }

    /// The two fractions denote the same number: their cross products, taken
    /// with the denominators as they stand, are equal.
    pub open spec fn equal(self, rhs: Fraction) -> bool {
        self.num * rhs.den == rhs.num * self.den
    }

    /// `self` denotes a smaller number than `rhs`: the cross products of the
    /// canonical forms, `sign(D1)*N1*|D2|` and `sign(D2)*N2*|D1|`, are in that
    /// order.
    pub open spec fn lesser(self, rhs: Fraction) -> bool {
        self.canonical().num * rhs.canonical().den < rhs.canonical().num * self.canonical().den
    }

    /// Neither equal nor lesser.
    pub open spec fn greater(self, rhs: Fraction) -> bool {
        !self.equal(rhs) && !self.lesser(rhs)
    }

    /// Every step of comparing the two stays within `i128`: the two signed
    /// cross products, the absolute value of each denominator, and each
    /// numerator times the other's absolute denominator, before and after it
    /// takes the sign of its own denominator.
    pub open spec fn comparable(self, rhs: Fraction) -> bool {
        &&& fits(self.num * rhs.den)
        &&& fits(rhs.num * self.den)
        &&& fits(abs(self.den) as int)
        &&& fits(abs(rhs.den) as int)
        &&& fits(self.num * abs(rhs.den))
        &&& fits(rhs.num * abs(self.den))
        &&& fits(sign(self.den) * (self.num * abs(rhs.den)))
        &&& fits(sign(rhs.den) * (rhs.num * abs(self.den)))
    }
}

} // verus!

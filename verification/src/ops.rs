//! The four arithmetic operations on two ratios. Each is evaluated when it is
//! built, keeps its operands, and reports an unreduced result.

use crate::error::RatioError;
use crate::fraction::Fraction;
use crate::laws::lemma_result_denominators;
use crate::ratio::StaticRatio;
use vstd::prelude::*;

verus! {

/// Helper type for adding up two rational constants.
#[derive(Debug)]
pub struct RationalSum<X: StaticRatio, Y: StaticRatio> {
    lhs: X,
    rhs: Y,
    numerator: i128,
    denominator: i128,
}

impl<X: StaticRatio, Y: StaticRatio> RationalSum<X, Y> {
    #[verifier::type_invariant]
    spec fn well_formed(&self) -> bool {
        let f = self.lhs.fraction().sum(self.rhs.fraction());
        self.numerator == f.num && self.denominator == f.den && f.den != 0
    }

    /// The first operand.
    pub closed spec fn lhs(&self) -> X {
        self.lhs
    }

    /// The second operand.
    pub closed spec fn rhs(&self) -> Y {
        self.rhs
    }

    /// Adds `rhs` to `lhs`.
    ///
    /// Fails with `ArithmeticOverflow` where a product or the sum leaves the
    /// range of `i128`.
    pub fn new(lhs: X, rhs: Y) -> (r: Result<Self, RatioError>)
        ensures
            match r {
                Ok(s) => {
                    &&& s.lhs() == lhs
                    &&& s.rhs() == rhs
                    &&& lhs.fraction().sum_fits(rhs.fraction())
                },
                Err(e) => {
                    &&& e == RatioError::ArithmeticOverflow
                    &&& !lhs.fraction().sum_fits(rhs.fraction())
                },
            },
    {
        let n1: i128 = lhs.numerator();
        let d1: i128 = lhs.denominator();
        let n2: i128 = rhs.numerator();
        let d2: i128 = rhs.denominator();
        match (n1.checked_mul(d2), d1.checked_mul(n2), d1.checked_mul(d2)) {
            (Some(left), Some(right), Some(denominator)) => match left.checked_add(right) {
                Some(numerator) => {
                    proof {
                        lemma_result_denominators(lhs.fraction(), rhs.fraction());
                    }
                    Ok(RationalSum { lhs, rhs, numerator, denominator })
                },
                None => Err(RatioError::ArithmeticOverflow),
            },
            _ => Err(RatioError::ArithmeticOverflow),
        }
    }
}

impl<X: StaticRatio + Copy, Y: StaticRatio + Copy> Clone for RationalSum<X, Y> {
    fn clone(&self) -> (r: Self)
        ensures
            r == *self,
    {
        *self
    }
}

impl<X: StaticRatio + Copy, Y: StaticRatio + Copy> Copy for RationalSum<X, Y> {

}

impl<X: StaticRatio, Y: StaticRatio> StaticRatio for RationalSum<X, Y> {
    open spec fn fraction(&self) -> Fraction {
        self.lhs().fraction().sum(self.rhs().fraction())
    }

    fn numerator(&self) -> (n: i128) {
        proof {
            use_type_invariant(self);
        }
        self.numerator
    }

    fn denominator(&self) -> (d: i128) {
        proof {
            use_type_invariant(self);
        }
        self.denominator
    }
}

/// Helper type for subtracting one rational constant from another.
#[derive(Debug)]
pub struct RationalDiff<X: StaticRatio, Y: StaticRatio> {
    lhs: X,
    rhs: Y,
    numerator: i128,
    denominator: i128,
}

impl<X: StaticRatio, Y: StaticRatio> RationalDiff<X, Y> {
    #[verifier::type_invariant]
    spec fn well_formed(&self) -> bool {
        let f = self.lhs.fraction().difference(self.rhs.fraction());
        self.numerator == f.num && self.denominator == f.den && f.den != 0
    }

    /// The operand that is subtracted from.
    pub closed spec fn lhs(&self) -> X {
        self.lhs
    }

    /// The operand that is subtracted.
    pub closed spec fn rhs(&self) -> Y {
        self.rhs
    }

    /// Subtracts `rhs` from `lhs`.
    ///
    /// Fails with `ArithmeticOverflow` where a product or the difference
    /// leaves the range of `i128`.
    pub fn new(lhs: X, rhs: Y) -> (r: Result<Self, RatioError>)
        ensures
            match r {
                Ok(s) => {
                    &&& s.lhs() == lhs
                    &&& s.rhs() == rhs
                    &&& lhs.fraction().difference_fits(rhs.fraction())
                },
                Err(e) => {
                    &&& e == RatioError::ArithmeticOverflow
                    &&& !lhs.fraction().difference_fits(rhs.fraction())
                },
            },
    {
        let n1: i128 = lhs.numerator();
        let d1: i128 = lhs.denominator();
        let n2: i128 = rhs.numerator();
        let d2: i128 = rhs.denominator();
        match (n1.checked_mul(d2), d1.checked_mul(n2), d1.checked_mul(d2)) {
            (Some(left), Some(right), Some(denominator)) => match left.checked_sub(right) {
                Some(numerator) => {
                    proof {
                        lemma_result_denominators(lhs.fraction(), rhs.fraction());
                    }
                    Ok(RationalDiff { lhs, rhs, numerator, denominator })
                },
                None => Err(RatioError::ArithmeticOverflow),
            },
            _ => Err(RatioError::ArithmeticOverflow),
        }
    }
}

impl<X: StaticRatio + Copy, Y: StaticRatio + Copy> Clone for RationalDiff<X, Y> {
    fn clone(&self) -> (r: Self)
        ensures
            r == *self,
    {
        *self
    }
}

impl<X: StaticRatio + Copy, Y: StaticRatio + Copy> Copy for RationalDiff<X, Y> {

}

impl<X: StaticRatio, Y: StaticRatio> StaticRatio for RationalDiff<X, Y> {
    open spec fn fraction(&self) -> Fraction {
        self.lhs().fraction().difference(self.rhs().fraction())
    }

    fn numerator(&self) -> (n: i128) {
        proof {
            use_type_invariant(self);
        }
        self.numerator
    }

    fn denominator(&self) -> (d: i128) {
        proof {
            use_type_invariant(self);
        }
        self.denominator
    }
}

/// Helper type for multiplying two rational constants.
#[derive(Debug)]
pub struct RationalProduct<X: StaticRatio, Y: StaticRatio> {
    lhs: X,
    rhs: Y,
    numerator: i128,
    denominator: i128,
}

impl<X: StaticRatio, Y: StaticRatio> RationalProduct<X, Y> {
    #[verifier::type_invariant]
    spec fn well_formed(&self) -> bool {
        let f = self.lhs.fraction().product(self.rhs.fraction());
        self.numerator == f.num && self.denominator == f.den && f.den != 0
    }

    /// The first factor.
    pub closed spec fn lhs(&self) -> X {
        self.lhs
    }

    /// The second factor.
    pub closed spec fn rhs(&self) -> Y {
        self.rhs
    }

    /// Multiplies `lhs` by `rhs`.
    ///
    /// Fails with `ArithmeticOverflow` where one of the two products leaves
    /// the range of `i128`.
    pub fn new(lhs: X, rhs: Y) -> (r: Result<Self, RatioError>)
        ensures
            match r {
                Ok(s) => {
                    &&& s.lhs() == lhs
                    &&& s.rhs() == rhs
                    &&& lhs.fraction().product_fits(rhs.fraction())
                },
                Err(e) => {
                    &&& e == RatioError::ArithmeticOverflow
                    &&& !lhs.fraction().product_fits(rhs.fraction())
                },
            },
    {
        let n1: i128 = lhs.numerator();
        let d1: i128 = lhs.denominator();
        let n2: i128 = rhs.numerator();
        let d2: i128 = rhs.denominator();
        match (n1.checked_mul(n2), d1.checked_mul(d2)) {
            (Some(numerator), Some(denominator)) => {
                proof {
                    lemma_result_denominators(lhs.fraction(), rhs.fraction());
                }
                Ok(RationalProduct { lhs, rhs, numerator, denominator })
            },
            _ => Err(RatioError::ArithmeticOverflow),
        }
    }
}

impl<X: StaticRatio + Copy, Y: StaticRatio + Copy> Clone for RationalProduct<X, Y> {
    fn clone(&self) -> (r: Self)
        ensures
            r == *self,
    {
        *self
    }
}

impl<X: StaticRatio + Copy, Y: StaticRatio + Copy> Copy for RationalProduct<X, Y> {

}

impl<X: StaticRatio, Y: StaticRatio> StaticRatio for RationalProduct<X, Y> {
    open spec fn fraction(&self) -> Fraction {
        self.lhs().fraction().product(self.rhs().fraction())
    }

    fn numerator(&self) -> (n: i128) {
        proof {
            use_type_invariant(self);
        }
        self.numerator
    }

    fn denominator(&self) -> (d: i128) {
        proof {
            use_type_invariant(self);
        }
        self.denominator
    }
}

/// Helper type for dividing one rational constant by another.
#[derive(Debug)]
pub struct RationalDiv<X: StaticRatio, Y: StaticRatio> {
    lhs: X,
    rhs: Y,
    numerator: i128,
    denominator: i128,
}

impl<X: StaticRatio, Y: StaticRatio> RationalDiv<X, Y> {
    #[verifier::type_invariant]
    spec fn well_formed(&self) -> bool {
        let f = self.lhs.fraction().quotient(self.rhs.fraction());
        self.numerator == f.num && self.denominator == f.den && f.den != 0
    }

    /// The dividend.
    pub closed spec fn lhs(&self) -> X {
        self.lhs
    }

    /// The divisor.
    pub closed spec fn rhs(&self) -> Y {
        self.rhs
    }

    /// Divides `lhs` by `rhs`.
    ///
    /// Fails with `DivisionByZero` where the numerator of `rhs` is zero,
    /// whatever else holds, and otherwise with `ArithmeticOverflow` where one
    /// of the two products leaves the range of `i128`.
    pub fn new(lhs: X, rhs: Y) -> (r: Result<Self, RatioError>)
        ensures
            match r {
                Ok(s) => {
                    &&& s.lhs() == lhs
                    &&& s.rhs() == rhs
                    &&& rhs.fraction().num != 0
                    &&& lhs.fraction().quotient_fits(rhs.fraction())
                },
                Err(RatioError::DivisionByZero) => rhs.fraction().num == 0,
                Err(RatioError::ArithmeticOverflow) => {
                    &&& rhs.fraction().num != 0
                    &&& !lhs.fraction().quotient_fits(rhs.fraction())
                },
                Err(RatioError::ZeroDenominator) => false,
            },
    {
        let n1: i128 = lhs.numerator();
        let d1: i128 = lhs.denominator();
        let n2: i128 = rhs.numerator();
        let d2: i128 = rhs.denominator();
        if n2 == 0 {
            return Err(RatioError::DivisionByZero);
        }
        match (n1.checked_mul(d2), d1.checked_mul(n2)) {
            (Some(numerator), Some(denominator)) => {
                proof {
                    lemma_result_denominators(lhs.fraction(), rhs.fraction());
                }
                Ok(RationalDiv { lhs, rhs, numerator, denominator })
            },
            _ => Err(RatioError::ArithmeticOverflow),
        }
    }
}

impl<X: StaticRatio + Copy, Y: StaticRatio + Copy> Clone for RationalDiv<X, Y> {
    fn clone(&self) -> (r: Self)
        ensures
            r == *self,
    {
        *self
    }
}

impl<X: StaticRatio + Copy, Y: StaticRatio + Copy> Copy for RationalDiv<X, Y> {

}

impl<X: StaticRatio, Y: StaticRatio> StaticRatio for RationalDiv<X, Y> {
    open spec fn fraction(&self) -> Fraction {
        self.lhs().fraction().quotient(self.rhs().fraction())
    }

    fn numerator(&self) -> (n: i128) {
        proof {
            use_type_invariant(self);
        }
        self.numerator
    }

    fn denominator(&self) -> (d: i128) {
        proof {
            use_type_invariant(self);
        }
        self.denominator
    }
}

} // verus!

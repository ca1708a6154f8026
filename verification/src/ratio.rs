//! The ratio value, the interface of everything that can stand for a ratio,
//! and the step that turns any such thing back into a ratio.

use crate::error::RatioError;
use crate::fraction::Fraction;
use vstd::prelude::*;

verus! {

/// Anything that reports a numerator and a denominator that is not zero.
pub trait StaticRatio {
    /// The fraction that the two accessors report.
    spec fn fraction(&self) -> Fraction;

    /// The numerator.
    fn numerator(&self) -> (n: i128)
        ensures
            n == self.fraction().num,
    ;

    /// The denominator, never zero.
    fn denominator(&self) -> (d: i128)
        ensures
            d == self.fraction().den,
            d != 0,
    ;
}

/// A rational constant: a numerator over a denominator that is not zero.
///
/// The value keeps the two integers it was made from, so two ratios made from
/// different pairs stay distinct even where they denote the same number. What
/// it reports through [`StaticRatio`] is its canonical form, with a positive
/// denominator and the sign in the numerator.
#[derive(Clone, Copy, Debug)]
pub struct Ratio {
    numerator: i128,
    denominator: i128,
}

impl View for Ratio {
    type V = Fraction;

    /// The pair of integers the ratio was made from.
    closed spec fn view(&self) -> Fraction {
        Fraction { num: self.numerator as int, den: self.denominator as int }
    }
}

impl Ratio {
    #[verifier::type_invariant]
    spec fn well_formed(&self) -> bool {
        self@.den != 0 && self@.canonical().representable()
    }

    /// Makes the ratio `numerator / denominator`.
    ///
    /// Fails with `ZeroDenominator` for the denominator zero, and with
    /// `ArithmeticOverflow` where the canonical form cannot be held: for the
    /// denominator `i128::MIN`, and for the numerator `i128::MIN` over a
    /// negative denominator.
    pub fn new(numerator: i128, denominator: i128) -> (r: Result<Ratio, RatioError>)
        ensures
            match r {
                Ok(v) => {
                    &&& v@ == Fraction::new(numerator as int, denominator as int)
                    &&& denominator != 0
                    &&& v@.canonical().representable()
                },
                Err(RatioError::ZeroDenominator) => denominator == 0,
                Err(RatioError::ArithmeticOverflow) => {
                    &&& denominator != 0
                    &&& !Fraction::new(numerator as int, denominator as int).canonical().representable()
                },
                Err(RatioError::DivisionByZero) => false,
            },
    {
        if denominator == 0 {
            Err(RatioError::ZeroDenominator)
        } else if denominator == i128::MIN || (denominator < 0 && numerator == i128::MIN) {
            Err(RatioError::ArithmeticOverflow)
        } else {
            Ok(Ratio { numerator, denominator })
        }
    }

    /// The ratio `numerator / denominator` for a positive denominator.
    pub(crate) fn from_canonical(numerator: i128, denominator: i128) -> (r: Ratio)
        requires
            denominator > 0,
        ensures
            r@ == Fraction::new(numerator as int, denominator as int),
    {
        Ratio { numerator, denominator }
    }
}

impl StaticRatio for Ratio {
    /// The canonical form of the pair the ratio was made from.
    open spec fn fraction(&self) -> Fraction {
        self@.canonical()
    }

    /// The canonical numerator: it carries the sign of the ratio.
    fn numerator(&self) -> (n: i128) {
        proof {
            use_type_invariant(self);
        }
        if self.denominator > 0 {
            self.numerator
        } else {
            -self.numerator
        }
    }

    /// The canonical denominator: always positive.
    fn denominator(&self) -> (d: i128)
        ensures
            d > 0,
    {
        proof {
            use_type_invariant(self);
        }
        if self.denominator > 0 {
            self.denominator
        } else {
            -self.denominator
        }
    }
}

/// Turns the outcome of an operation back into a ratio.
pub trait StaticArithmetic: StaticRatio {
    /// The ratio made from the numerator and denominator as they are
    /// reported. Its canonical form has the sign in the numerator, whatever
    /// the sign of the reported denominator was.
    ///
    /// Fails with `ArithmeticOverflow` where that canonical form cannot be
    /// held in `i128`.
    fn op_result(&self) -> (r: Result<Ratio, RatioError>)
        ensures
            match r {
                Ok(v) => v@ == self.fraction() && self.fraction().canonical().representable(),
                Err(e) => {
                    &&& e == RatioError::ArithmeticOverflow
                    &&& !self.fraction().canonical().representable()
                },
            },
    ;
}

impl<T: StaticRatio> StaticArithmetic for T {
    fn op_result(&self) -> (r: Result<Ratio, RatioError>) {
        Ratio::new(self.numerator(), self.denominator())
    }
}

} // verus!

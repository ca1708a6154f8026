//! The ways in which building a ratio or an operation on ratios fails.

use vstd::prelude::*;

verus! {

/// Why a ratio, or an operation on two ratios, could not be evaluated.
#[derive(Clone, Copy, Debug, PartialEq, Eq, Structural)]
pub enum RatioError {
    /// A ratio was given the denominator zero.
    ZeroDenominator,
    /// The second operand of a quotient has the numerator zero.
    DivisionByZero,
    /// An intermediate value left the range of `i128`.
    ArithmeticOverflow,
}

} // verus!

//! Exact rational arithmetic on pairs of bounded integers.
//!
//! A [`Ratio`] is a numerator over a denominator that is not zero. It reports
//! its canonical form, can be reduced to lowest terms, and combines with
//! other ratios through the descriptors [`RationalSum`], [`RationalDiff`],
//! [`RationalProduct`], [`RationalDiv`] and [`RationalCmp`]. Every operation
//! is a pure function of its operands, and every step that could leave the
//! range of `i128` is checked.

pub mod compare;
pub mod error;
pub mod euclid;
pub mod fraction;
pub mod laws;
pub mod ops;
pub mod ratio;
pub mod reduce;
pub mod text;

pub use crate::compare::RationalCmp;
pub use crate::error::RatioError;
pub use crate::euclid::gcd;
pub use crate::fraction::Fraction;
pub use crate::ops::{RationalDiff, RationalDiv, RationalProduct, RationalSum};
pub use crate::ratio::{Ratio, StaticArithmetic, StaticRatio};
pub use crate::reduce::Reducible;

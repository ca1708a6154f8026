//! Reduction of a ratio to lowest terms.

use crate::euclid::gcd;
use crate::laws::{lemma_reduced_irreducible, lemma_reduced_keeps_value, lemma_reduced_parts};
use crate::ratio::{Ratio, StaticRatio};
use vstd::arithmetic::div_mod::{lemma_div_multiples_vanish, lemma_fundamental_div_mod};
use vstd::prelude::*;

verus! {

/// What the reduction of a ratio yields: the greatest common divisor of its
/// numerator and denominator, the two divided through by it, and the ratio
/// made of those.
pub trait Reducible: StaticRatio {
    /// The greatest common divisor of the numerator and denominator.
    fn gcd_value(&self) -> (g: i128)
        ensures
            g == self.fraction().gcd_value(),
            g > 0,
    ;

    /// Reduced numerator value.
    fn r_numerator(&self) -> (n: i128)
        ensures
            n == self.fraction().reduced().num,
    ;

    /// Reduced denominator value.
    fn r_denominator(&self) -> (d: i128)
        ensures
            d == self.fraction().reduced().den,
            d > 0,
    ;

    /// Equals to true if the fraction cannot be reduced further.
    fn is_irreducible(&self) -> (b: bool)
        ensures
            b == self.fraction().irreducible(),
    ;

    /// Fraction reduced to its lowest terms: a ratio in canonical form that
    /// cannot be reduced further and denotes the same number.
    fn reduced(&self) -> (r: Ratio)
        ensures
            r@ == self.fraction().reduced(),
            r.fraction() == r@,
            r.fraction().irreducible(),
            r.fraction().equal(self.fraction()),
    ;
}

/// Dividing `n` by a positive divisor of it gives the same quotient whether
/// the division rounds towards zero or downwards.
proof fn lemma_exact_quotient(n: int, g: int)
    requires
        g > 0,
        n % g == 0,
    ensures
        n < 0 ==> ((n * -1) / g) * -1 == n / g,
        n <= n / g <= -n || -n <= n / g <= n,
{
    let q = n / g;
    lemma_fundamental_div_mod(n, g);
    assert(n == g * q);
    assert(n * -1 == g * (-q)) by (nonlinear_arith)
        requires
            n == g * q,
    ;
    lemma_div_multiples_vanish(-q, g);
    assert(n <= q <= -n || -n <= q <= n) by (nonlinear_arith)
        requires
            n == g * q,
            g > 0,
    ;
}

/// `n / g` for a positive `g` that divides `n`.
fn exact_div(n: i128, g: i128) -> (q: i128)
    requires
        g > 0,
        n as int % g as int == 0,
    ensures
        q == n as int / g as int,
{
    proof {
        lemma_exact_quotient(n as int, g as int);
    }
    n.checked_div(g).unwrap()
}

impl Reducible for Ratio {
    fn gcd_value(&self) -> (g: i128) {
        let n: i128 = self.numerator();
        let d: i128 = self.denominator();
        proof {
            lemma_reduced_parts(self.fraction());
        }
        gcd(n, d)
    }

    fn r_numerator(&self) -> (n: i128) {
        let n: i128 = self.numerator();
        let d: i128 = self.denominator();
        proof {
            lemma_reduced_parts(self.fraction());
        }
        exact_div(n, gcd(n, d))
    }

    fn r_denominator(&self) -> (d: i128) {
        let n: i128 = self.numerator();
        let d: i128 = self.denominator();
        proof {
            lemma_reduced_parts(self.fraction());
        }
        exact_div(d, gcd(n, d))
    }

    fn is_irreducible(&self) -> (b: bool) {
        self.gcd_value() == 1
    }

    fn reduced(&self) -> (r: Ratio) {
        let n: i128 = self.numerator();
        let d: i128 = self.denominator();
        proof {
            lemma_reduced_parts(self.fraction());
            lemma_reduced_irreducible(self.fraction());
            lemma_reduced_keeps_value(self.fraction());
        }
        let g: i128 = gcd(n, d);
        Ratio::from_canonical(exact_div(n, g), exact_div(d, g))
    }
}

} // verus!

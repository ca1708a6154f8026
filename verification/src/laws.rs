//! What holds of canonical forms, of reduction, of comparison and of the
//! four operations, for fractions of unbounded integers.

use crate::euclid::{
    divides, is_gcd, lemma_divides_quotient, lemma_divisor_bound, lemma_multiple_divides,
    lemma_spec_gcd_bounds, lemma_spec_gcd_is_gcd, lemma_spec_gcd_of_zero, spec_gcd,
};
use crate::fraction::Fraction;
use vstd::arithmetic::div_mod::lemma_div_by_self;
use vstd::prelude::*;

verus! {

/// The canonical form has a positive denominator and denotes the same number.
pub proof fn lemma_canonical_keeps_value(f: Fraction)
    requires
        f.den != 0,
    ensures
        f.canonical().den > 0,
        f.canonical().equal(f),
{
    assert((-f.num) * f.den == f.num * (-f.den)) by (nonlinear_arith);
}

/// Taking the canonical form a second time changes nothing.
pub proof fn lemma_canonical_idempotent(f: Fraction)
    requires
        f.den != 0,
    ensures
        f.canonical().canonical() == f.canonical(),
{
}

/// The canonical form is the greatest common divisor times the reduced form,
/// part by part; the greatest common divisor and the reduced denominator are
/// positive.
pub proof fn lemma_reduced_parts(f: Fraction)
    requires
        f.den != 0,
    ensures
        f.gcd_value() > 0,
        f.reduced().den > 0,
        f.canonical().num == f.gcd_value() * f.reduced().num,
        f.canonical().den == f.gcd_value() * f.reduced().den,
{
    let c = f.canonical();
    let g = f.gcd_value();
    lemma_spec_gcd_bounds(c.num, c.den);
    lemma_spec_gcd_is_gcd(c.num, c.den);
    lemma_divides_quotient(g, c.num);
    lemma_divides_quotient(g, c.den);
    assert(f.reduced().den > 0) by (nonlinear_arith)
        requires
            c.den == g * f.reduced().den,
            c.den > 0,
            g > 0,
    ;
}

/// The reduced form is in lowest terms.
pub proof fn lemma_reduced_irreducible(f: Fraction)
    requires
        f.den != 0,
    ensures
        f.reduced().irreducible(),
{
    let c = f.canonical();
    let g = f.gcd_value();
    let r = f.reduced();
    lemma_reduced_parts(f);
    let h = spec_gcd(r.num, r.den);
    lemma_spec_gcd_bounds(r.num, r.den);
    lemma_spec_gcd_is_gcd(r.num, r.den);
    lemma_divides_quotient(h, r.num);
    lemma_divides_quotient(h, r.den);
    let kn = r.num / (h as int);
    let kd = r.den / (h as int);
    let gh = g * h;
    assert(c.num == gh * kn) by (nonlinear_arith)
        requires
            c.num == g * r.num,
            r.num == h * kn,
            gh == g * h,
    ;
    assert(c.den == gh * kd) by (nonlinear_arith)
        requires
            c.den == g * r.den,
            r.den == h * kd,
            gh == g * h,
    ;
    lemma_multiple_divides(gh, kn);
    lemma_multiple_divides(gh, kd);
    lemma_spec_gcd_is_gcd(c.num, c.den);
    assert(is_gcd(c.num, c.den, g));
    assert(divides(gh, g as int));
    lemma_divisor_bound(gh, g as int);
    assert(h <= 1) by (nonlinear_arith)
        requires
            gh == g * h,
            gh <= g,
            g > 0,
    ;
}

/// The reduced form denotes the same number as the fraction it came from.
pub proof fn lemma_reduced_keeps_value(f: Fraction)
    requires
        f.den != 0,
    ensures
        f.reduced().equal(f),
{
    let c = f.canonical();
    let g = f.gcd_value();
    let r = f.reduced();
    lemma_reduced_parts(f);
    assert(r.num * c.den == c.num * r.den) by (nonlinear_arith)
        requires
            c.num == g * r.num,
            c.den == g * r.den,
    ;
    if f.den < 0 {
        assert(r.num * f.den == f.num * r.den) by (nonlinear_arith)
            requires
                r.num * (-f.den) == (-f.num) * r.den,
        ;
    }
}

/// Zero reduces to `0/1`, whatever denominator it stood over.
pub proof fn lemma_zero_reduces_to_zero_over_one(f: Fraction)
    requires
        f.num == 0,
        f.den != 0,
    ensures
        f.gcd_value() == f.canonical().den,
        f.reduced() == Fraction::new(0, 1),
{
    let c = f.canonical();
    lemma_spec_gcd_of_zero(c.den);
    lemma_div_by_self(c.den);
}

/// Whether two fractions are equal does not depend on where the signs stand:
/// the cross products of the fractions as given are equal exactly when those
/// of their canonical forms are.
pub proof fn lemma_equal_ignores_sign(a: Fraction, b: Fraction)
    requires
        a.den != 0,
        b.den != 0,
    ensures
        a.equal(b) <==> a.canonical().equal(b.canonical()),
{
    assert((-a.num) * b.den == -(a.num * b.den)) by (nonlinear_arith);
    assert(b.num * (-a.den) == -(b.num * a.den)) by (nonlinear_arith);
    assert(a.num * (-b.den) == -(a.num * b.den)) by (nonlinear_arith);
    assert((-b.num) * a.den == -(b.num * a.den)) by (nonlinear_arith);
    assert((-a.num) * (-b.den) == a.num * b.den) by (nonlinear_arith);
    assert((-b.num) * (-a.den) == b.num * a.den) by (nonlinear_arith);
}

/// Of two fractions exactly one holds: the first is lesser, the two are
/// equal, or the second is lesser. So `greater` is `lesser` with the operands
/// exchanged.
pub proof fn lemma_trichotomy(a: Fraction, b: Fraction)
    requires
        a.den != 0,
        b.den != 0,
    ensures
        a.lesser(b) || a.equal(b) || b.lesser(a),
        !(a.lesser(b) && a.equal(b)),
        !(a.equal(b) && b.lesser(a)),
        !(a.lesser(b) && b.lesser(a)),
        a.greater(b) <==> b.lesser(a),
{
    lemma_equal_ignores_sign(a, b);
}

/// Every fraction equals itself, and equality does not depend on the order
/// of the operands.
pub proof fn lemma_equal_reflexive_symmetric(a: Fraction, b: Fraction)
    ensures
        a.equal(a),
        a.equal(b) <==> b.equal(a),
{
}

/// Two fractions that equal a third one equal each other.
pub proof fn lemma_equal_transitive(a: Fraction, b: Fraction, c: Fraction)
    requires
        b.den != 0,
        a.equal(b),
        b.equal(c),
    ensures
        a.equal(c),
{
    let left = a.num * c.den;
    let right = c.num * a.den;
    assert(b.den * left == b.den * right) by (nonlinear_arith)
        requires
            a.num * b.den == b.num * a.den,
            b.num * c.den == c.num * b.den,
            left == a.num * c.den,
            right == c.num * a.den,
    ;
    assert(left == right) by (nonlinear_arith)
        requires
            b.den * left == b.den * right,
            b.den != 0,
    ;
}

/// What is lesser than something lesser than a third is lesser than the
/// third.
pub proof fn lemma_lesser_transitive(a: Fraction, b: Fraction, c: Fraction)
    requires
        a.den != 0,
        b.den != 0,
        c.den != 0,
        a.lesser(b),
        b.lesser(c),
    ensures
        a.lesser(c),
{
    let x = a.canonical();
    let y = b.canonical();
    let z = c.canonical();
    let left = x.num * z.den;
    let right = z.num * x.den;
    assert(y.den * left < y.den * right) by (nonlinear_arith)
        requires
            x.num * y.den < y.num * x.den,
            y.num * z.den < z.num * y.den,
            x.den > 0,
            y.den > 0,
            z.den > 0,
            left == x.num * z.den,
            right == z.num * x.den,
    ;
    assert(left < right) by (nonlinear_arith)
        requires
            y.den * left < y.den * right,
            y.den > 0,
    ;
}

/// What equals something lesser than a third, or is lesser than something
/// equal to a third, is lesser than the third.
pub proof fn lemma_lesser_equal_chain(a: Fraction, b: Fraction, c: Fraction)
    requires
        a.den != 0,
        b.den != 0,
        c.den != 0,
        (a.equal(b) && b.lesser(c)) || (a.lesser(b) && b.equal(c)),
    ensures
        a.lesser(c),
{
    let x = a.canonical();
    let y = b.canonical();
    let z = c.canonical();
    lemma_equal_ignores_sign(a, b);
    lemma_equal_ignores_sign(b, c);
    let left = x.num * z.den;
    let right = z.num * x.den;
    if a.equal(b) {
        assert(y.den * left < y.den * right) by (nonlinear_arith)
            requires
                x.num * y.den == y.num * x.den,
                y.num * z.den < z.num * y.den,
                x.den > 0,
                y.den > 0,
                z.den > 0,
                left == x.num * z.den,
                right == z.num * x.den,
        ;
    } else {
        assert(y.den * left < y.den * right) by (nonlinear_arith)
            requires
                x.num * y.den < y.num * x.den,
                y.num * z.den == z.num * y.den,
                x.den > 0,
                y.den > 0,
                z.den > 0,
                left == x.num * z.den,
                right == z.num * x.den,
        ;
    }
    assert(left < right) by (nonlinear_arith)
        requires
            y.den * left < y.den * right,
            y.den > 0,
    ;
}

/// Whether a fraction is lesser than another depends only on the numbers
/// the two denote.
pub proof fn lemma_lesser_respects_equal(a: Fraction, a2: Fraction, b: Fraction, b2: Fraction)
    requires
        a.den != 0,
        a2.den != 0,
        b.den != 0,
        b2.den != 0,
        a.equal(a2),
        b.equal(b2),
    ensures
        a.lesser(b) <==> a2.lesser(b2),
{
    if a.lesser(b) {
        lemma_lesser_equal_chain(a2, a, b);
        lemma_lesser_equal_chain(a2, b, b2);
    }
    if a2.lesser(b2) {
        lemma_lesser_equal_chain(a, a2, b2);
        lemma_lesser_equal_chain(a, b2, b);
    }
}

/// The sum, difference and product of fractions with positive denominators
/// have a positive denominator, and no operation but a quotient by zero
/// yields the denominator zero.
pub proof fn lemma_result_denominators(a: Fraction, b: Fraction)
    requires
        a.den != 0,
        b.den != 0,
    ensures
        a.sum(b).den != 0,
        a.difference(b).den != 0,
        a.product(b).den != 0,
        b.num != 0 ==> a.quotient(b).den != 0,
        a.den > 0 && b.den > 0 ==> a.sum(b).den > 0 && a.difference(b).den > 0 && a.product(
            b,
        ).den > 0,
{
    assert(a.den * b.den != 0) by (nonlinear_arith)
        requires
            a.den != 0,
            b.den != 0,
    ;
    assert(b.num != 0 ==> a.den * b.num != 0) by (nonlinear_arith)
        requires
            a.den != 0,
    ;
    assert(a.den > 0 && b.den > 0 ==> a.den * b.den > 0) by (nonlinear_arith);
}

/// Two products multiplied, with the inner factors exchanged.
proof fn lemma_exchange(x: int, y: int, u: int, v: int)
    ensures
        (x * y) * (u * v) == (x * u) * (y * v),
        (x * y) * (u * v) == (x * v) * (y * u),
{
    assert((x * y) * (u * v) == (x * u) * (y * v)) by (nonlinear_arith);
    assert((x * y) * (u * v) == (x * v) * (y * u)) by (nonlinear_arith);
}

/// A sum or a difference times a factor, term by term.
proof fn lemma_distribute(x: int, y: int, z: int)
    ensures
        (x + y) * z == x * z + y * z,
        (x - y) * z == x * z - y * z,
{
    assert((x + y) * z == x * z + y * z) by (nonlinear_arith);
    assert((x - y) * z == x * z - y * z) by (nonlinear_arith);
}

/// The four operations depend only on the numbers that their operands
/// denote: equal operands give equal results.
pub proof fn lemma_operations_respect_equal(a: Fraction, a2: Fraction, b: Fraction, b2: Fraction)
    requires
        a.equal(a2),
        b.equal(b2),
    ensures
        a.sum(b).equal(a2.sum(b2)),
        a.difference(b).equal(a2.difference(b2)),
        a.product(b).equal(a2.product(b2)),
        a.quotient(b).equal(a2.quotient(b2)),
{
    // Sum and difference: each cross product splits into two terms, and the
    // terms agree pairwise.
    lemma_distribute(a.num * b.den, a.den * b.num, a2.den * b2.den);
    lemma_distribute(a2.num * b2.den, a2.den * b2.num, a.den * b.den);
    lemma_exchange(a.num, b.den, a2.den, b2.den);
    lemma_exchange(a2.num, b2.den, a.den, b.den);
    lemma_exchange(a.den, b.num, a2.den, b2.den);
    lemma_exchange(a2.den, b2.num, a.den, b.den);
    assert((a.num * a2.den) * (b.den * b2.den) == (a2.num * a.den) * (b2.den * b.den))
        by (nonlinear_arith)
        requires
            a.num * a2.den == a2.num * a.den,
    ;
    assert((a.den * a2.den) * (b.num * b2.den) == (a2.den * a.den) * (b2.num * b.den))
        by (nonlinear_arith)
        requires
            b.num * b2.den == b2.num * b.den,
    ;
    // Product and quotient: one exchange on each side.
    lemma_exchange(a.num, b.num, a2.den, b2.den);
    lemma_exchange(a2.num, b2.num, a.den, b.den);
    assert((a.num * a2.den) * (b.num * b2.den) == (a2.num * a.den) * (b2.num * b.den))
        by (nonlinear_arith)
        requires
            a.num * a2.den == a2.num * a.den,
            b.num * b2.den == b2.num * b.den,
    ;
    lemma_exchange(a.num, b.den, a2.den, b2.num);
    lemma_exchange(a2.num, b2.den, a.den, b.num);
    assert((a.num * a2.den) * (b.den * b2.num) == (a2.num * a.den) * (b2.den * b.num))
        by (nonlinear_arith)
        requires
            a.num * a2.den == a2.num * a.den,
            b.num * b2.den == b2.num * b.den,
    ;
}

/// Subtracting what was added, and dividing by what was multiplied by, gives
/// back the number started from.
pub proof fn lemma_operations_invert(a: Fraction, b: Fraction)
    ensures
        a.sum(b).difference(b).equal(a),
        a.difference(b).sum(b).equal(a),
        a.product(b).quotient(b).equal(a),
        a.quotient(b).product(b).equal(a),
{
    assert(((a.num * b.den + a.den * b.num) * b.den - (a.den * b.den) * b.num) * a.den == a.num * ((
    a.den * b.den) * b.den)) by (nonlinear_arith);
    assert(((a.num * b.den - a.den * b.num) * b.den + (a.den * b.den) * b.num) * a.den == a.num * ((
    a.den * b.den) * b.den)) by (nonlinear_arith);
    assert(((a.num * b.num) * b.den) * a.den == a.num * ((a.den * b.den) * b.num))
        by (nonlinear_arith);
    assert(((a.num * b.den) * b.num) * a.den == a.num * ((a.den * b.num) * b.den))
        by (nonlinear_arith);
}

} // verus!

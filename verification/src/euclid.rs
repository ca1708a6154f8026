//! Greatest common divisor of two signed integers, with the number theory
//! that the reduction of a ratio rests on.

use vstd::arithmetic::div_mod::{lemma_fundamental_div_mod, lemma_mod_multiples_basic};
use vstd::prelude::*;

verus! {

/// Absolute value of a mathematical integer.
pub open spec fn abs(x: int) -> nat {
    if x < 0 {
        (-x) as nat
    } else {
        x as nat
    }
}

/// `d` divides `n`: `n` is a multiple of `d`. Zero divides only zero.
pub open spec fn divides(d: nat, n: int) -> bool {
    if d == 0 {
        n == 0
    } else {
        n % (d as int) == 0
    }
}

/// `g` is the greatest common divisor of `x` and `y`: it divides both, and
/// every natural number that divides both divides `g`. For `x == y == 0` this
/// makes `g == 0`.
pub open spec fn is_gcd(x: int, y: int, g: nat) -> bool {
    &&& divides(g, x)
    &&& divides(g, y)
    &&& forall|d: nat| divides(d, x) && divides(d, y) ==> #[trigger] divides(d, g as int)
}

/// Euclid's remainder sequence on natural numbers: `a, b, a mod b, ...` until
/// the remainder is zero.
pub open spec fn gcd_nat(a: nat, b: nat) -> nat
    decreases b,
{
    if b == 0 {
        a
    } else {
        gcd_nat(b, a % b)
    }
}

/// The greatest common divisor of two integers of either sign. It is never
/// negative, `spec_gcd(0, y) == |y|` and `spec_gcd(x, 0) == |x|`.
pub open spec fn spec_gcd(x: int, y: int) -> nat {
    gcd_nat(abs(x), abs(y))
}

/// Every multiple of `d` is divisible by `d`.
pub proof fn lemma_multiple_divides(d: nat, k: int)
    ensures
        divides(d, d * k),
{
    if d == 0 {
        assert(d * k == 0) by (nonlinear_arith)
            requires
                d == 0,
        ;
    } else {
        lemma_mod_multiples_basic(k, d as int);
        assert(d * k == k * d) by (nonlinear_arith);
    }
}

/// What `d` divides is `d` times the quotient.
pub proof fn lemma_divides_quotient(d: nat, n: int)
    requires
        d > 0,
        divides(d, n),
    ensures
        n == d * (n / (d as int)),
{
    lemma_fundamental_div_mod(n, d as int);
}

/// A divisor of `u` and `v` divides `u + q * v` for every integer `q`.
pub proof fn lemma_divides_linear(d: nat, u: int, v: int, q: int)
    requires
        divides(d, u),
        divides(d, v),
    ensures
        divides(d, u + q * v),
{
    if d == 0 {
        assert(u + q * v == 0) by (nonlinear_arith)
            requires
                u == 0,
                v == 0,
        ;
    } else {
        let ku = u / (d as int);
        let kv = v / (d as int);
        lemma_divides_quotient(d, u);
        lemma_divides_quotient(d, v);
        assert(u + q * v == d * (ku + q * kv)) by (nonlinear_arith)
            requires
                u == d * ku,
                v == d * kv,
        ;
        lemma_multiple_divides(d, ku + q * kv);
    }
}

/// A number and its absolute value have the same divisors.
pub proof fn lemma_divides_abs(d: nat, n: int)
    ensures
        divides(d, n) <==> divides(d, abs(n) as int),
{
    if n < 0 {
        assert(divides(d, 0)) by {
            lemma_multiple_divides(d, 0);
            assert(d * 0 == 0);
        }
        if divides(d, n) {
            lemma_divides_linear(d, 0, n, -1);
            assert(0 + (-1) * n == -n);
        }
        if divides(d, -n) {
            lemma_divides_linear(d, 0, -n, -1);
            assert(0 + (-1) * (-n) == n);
        }
    }
}

/// A positive number is at least as large as each of its divisors, and zero
/// does not divide it.
pub proof fn lemma_divisor_bound(d: nat, n: int)
    requires
        n > 0,
        divides(d, n),
    ensures
        0 < d <= n,
{
    let k = n / (d as int);
    lemma_divides_quotient(d, n);
    assert(d <= n) by (nonlinear_arith)
        requires
            n == d * k,
            n > 0,
            d > 0,
    ;
}

/// Euclid's sequence ends in a common divisor of its two starting values.
pub proof fn lemma_gcd_nat_divides(a: nat, b: nat)
    ensures
        divides(gcd_nat(a, b), a as int),
        divides(gcd_nat(a, b), b as int),
    decreases b,
{
    let g = gcd_nat(a, b);
    if b == 0 {
        lemma_multiple_divides(g, 1);
        lemma_multiple_divides(g, 0);
        assert(g * 1 == a && g * 0 == 0);
    } else {
        let r = a % b;
        let q = a as int / b as int;
        lemma_gcd_nat_divides(b, r);
        lemma_fundamental_div_mod(a as int, b as int);
        lemma_divides_linear(g, r as int, b as int, q);
        assert(r + q * b == a) by (nonlinear_arith)
            requires
                a == b * q + r,
        ;
    }
}

/// Every common divisor of the two starting values divides what Euclid's
/// sequence ends in.
pub proof fn lemma_gcd_nat_greatest(a: nat, b: nat, d: nat)
    requires
        divides(d, a as int),
        divides(d, b as int),
    ensures
        divides(d, gcd_nat(a, b) as int),
    decreases b,
{
    if b != 0 {
        let r = a % b;
        let q = a as int / b as int;
        lemma_fundamental_div_mod(a as int, b as int);
        lemma_divides_linear(d, a as int, b as int, -q);
        assert(a + (-q) * b == r) by (nonlinear_arith)
            requires
                a == b * q + r,
        ;
        lemma_gcd_nat_greatest(b, r, d);
    }
}

/// `spec_gcd(x, y)` is the greatest common divisor of `x` and `y`.
pub proof fn lemma_spec_gcd_is_gcd(x: int, y: int)
    ensures
        is_gcd(x, y, spec_gcd(x, y)),
{
    let g = spec_gcd(x, y);
    lemma_gcd_nat_divides(abs(x), abs(y));
    lemma_divides_abs(g, x);
    lemma_divides_abs(g, y);
    assert forall|d: nat| divides(d, x) && divides(d, y) implies #[trigger] divides(
        d,
        g as int,
    ) by {
        lemma_divides_abs(d, x);
        lemma_divides_abs(d, y);
        lemma_gcd_nat_greatest(abs(x), abs(y), d);
    }
}

/// Two integers have one greatest common divisor.
pub proof fn lemma_gcd_unique(x: int, y: int, g: nat, h: nat)
    requires
        is_gcd(x, y, g),
        is_gcd(x, y, h),
    ensures
        g == h,
{
    assert(divides(g, h as int));
    assert(divides(h, g as int));
    if g > 0 {
        lemma_divisor_bound(h, g as int);
        lemma_divisor_bound(g, h as int);
    }
}

/// The greatest common divisor is zero only for two zeros, and is no larger
/// than either operand that is not zero.
pub proof fn lemma_spec_gcd_bounds(x: int, y: int)
    ensures
        spec_gcd(x, y) == 0 <==> x == 0 && y == 0,
        x != 0 ==> spec_gcd(x, y) <= abs(x),
        y != 0 ==> spec_gcd(x, y) <= abs(y),
{
    let g = spec_gcd(x, y);
    lemma_gcd_nat_divides(abs(x), abs(y));
    if x != 0 {
        lemma_divisor_bound(g, abs(x) as int);
    }
    if y != 0 {
        lemma_divisor_bound(g, abs(y) as int);
    }
}

/// The greatest common divisor of zero and `x` is the absolute value of `x`.
pub proof fn lemma_spec_gcd_of_zero(x: int)
    ensures
        spec_gcd(0, x) == abs(x),
        spec_gcd(x, 0) == abs(x),
{
    reveal_with_fuel(gcd_nat, 2);
}

/// Magnitude of a signed integer, computed without negating the smallest value.
fn magnitude(x: i128) -> (m: u128)
    ensures
        m == abs(x as int),
{
    if x >= 0 {
        x as u128
    } else {
        (-(x + 1)) as u128 + 1
    }
}

/// Finds the greatest common divisor with the Euclidean algorithm.
///
/// The operands may have either sign; the result is never negative. The two
/// conditions leave out exactly the pairs whose greatest common divisor is
/// `2^127`, one more than the largest `i128`.
pub fn gcd(x: i128, y: i128) -> (g: i128)
    requires
        x == i128::MIN ==> y != 0 && y != i128::MIN,
        y == i128::MIN ==> x != 0,
    ensures
        g == spec_gcd(x as int, y as int),
        is_gcd(x as int, y as int, g as nat),
        x == 0 ==> g == abs(y as int),
        y == 0 ==> g == abs(x as int),
{
    let mut a: u128 = magnitude(x);
    let mut b: u128 = magnitude(y);
    while b != 0
        invariant
            gcd_nat(a as nat, b as nat) == spec_gcd(x as int, y as int),
        decreases b,
    {
        let r: u128 = a % b;
        a = b;
        b = r;
    }
    proof {
        lemma_spec_gcd_bounds(x as int, y as int);
        lemma_spec_gcd_is_gcd(x as int, y as int);
        lemma_spec_gcd_of_zero(x as int);
        lemma_spec_gcd_of_zero(y as int);
    }
    a as i128
}

} // verus!

//! The textual form of a ratio: its canonical numerator and denominator in
//! decimal, with ` / ` between them.

use crate::fraction::Fraction;
use crate::ratio::{Ratio, StaticRatio};
use vstd::prelude::*;

verus! {

/// The character of the decimal digit `d`.
pub open spec fn digit_char(d: nat) -> char {
    ('0' as nat + d) as char
}

/// The decimal digits of a natural number, most significant first, with no
/// leading zero but for zero itself.
pub open spec fn decimal_nat(n: nat) -> Seq<char>
    decreases n,
{
    if n < 10 {
        seq![digit_char(n)]
    } else {
        decimal_nat(n / 10).push(digit_char(n % 10))
    }
}

/// The decimal form of an integer: a minus sign before the digits of a
/// negative one.
pub open spec fn decimal(n: int) -> Seq<char> {
    if n < 0 {
        seq!['-'] + decimal_nat((-n) as nat)
    } else {
        decimal_nat(n as nat)
    }
}

/// Numerator, ` / `, denominator.
pub open spec fn fraction_text(f: Fraction) -> Seq<char> {
    decimal(f.num) + seq![' ', '/', ' '] + decimal(f.den)
}

/// `String::push` appends the character to the end of the string.
pub assume_specification[ String::push ](s: &mut String, c: char)
    ensures
        final(s)@ == old(s)@.push(c),
;

/// The character of a decimal digit.
fn digit(d: u8) -> (c: char)
    requires
        d < 10,
    ensures
        c == digit_char(d as nat),
{
    (48u8 + d) as char
}

/// Appends the decimal digits of `n`.
fn push_decimal_nat(out: &mut String, n: u128)
    ensures
        final(out)@ == old(out)@ + decimal_nat(n as nat),
    decreases n,
{
    if n >= 10 {
        push_decimal_nat(out, n / 10);
    }
    out.push(digit((n % 10) as u8));
}

/// Appends the decimal form of `n`.
fn push_decimal(out: &mut String, n: i128)
    ensures
        final(out)@ == old(out)@ + decimal(n as int),
{
    if n < 0 {
        out.push('-');
        push_decimal_nat(out, (-(n + 1)) as u128 + 1);
    } else {
        push_decimal_nat(out, n as u128);
    }
}

impl Ratio {
    /// The textual form: canonical numerator, ` / `, canonical denominator.
    pub fn to_string(&self) -> (s: String)
        ensures
            s@ == fraction_text(self.fraction()),
    {
        let mut s = String::new();
        push_decimal(&mut s, self.numerator());
        s.push(' ');
        s.push('/');
        s.push(' ');
        push_decimal(&mut s, self.denominator());
        s
    }
}

} // verus!

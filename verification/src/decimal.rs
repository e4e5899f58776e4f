//! Fixed-point decimal numbers, used where the remote API takes a
//! fractional amount such as a percentage charge. The value of
//! `Decimal { mantissa, scale }` is `mantissa / 10^scale`, rendered
//! with exactly `scale` digits after the point.

use vstd::prelude::*;
use crate::text::{dec_nat, digit_char, exec_digit_char, push_char, push_u128};

verus! {

/// A nonnegative fixed-point decimal number.
#[derive(Clone, Copy, Debug, PartialEq, Eq, Structural)]
pub struct Decimal {
    /// The digits of the number, point removed.
    pub mantissa: u64,
    /// How many of the trailing digits fall behind the point.
    pub scale: u8,
}

/// The n-th power of ten.
pub open spec fn pow10(n: nat) -> nat
    decreases n,
{
    if n == 0 {
        1
    } else {
        10 * pow10((n - 1) as nat)
    }
}

/// The last `s` digits of `r`, zero-padded to length `s`.
pub open spec fn frac_digits(r: nat, s: nat) -> Seq<char>
    decreases s,
{
    if s == 0 {
        Seq::empty()
    } else {
        frac_digits(r / 10, (s - 1) as nat).push(digit_char((r % 10) as int))
    }
}

/// The rendered text of a decimal: the integer digits, and, for a
/// nonzero scale, a point and exactly `scale` fractional digits.
pub open spec fn dec_text(d: Decimal) -> Seq<char> {
    if d.scale == 0 {
        dec_nat(d.mantissa as nat)
    } else {
        dec_nat(d.mantissa as nat / pow10(d.scale as nat)) + seq!['.'] + frac_digits(
            d.mantissa as nat % pow10(d.scale as nat),
            d.scale as nat,
        )
    }
}

/// The value text of an optional decimal field inside a JSON body.
pub open spec fn jopt_decimal(o: Option<Decimal>) -> Seq<char> {
    match o {
        Option::Some(d) => dec_text(d),
        Option::None => "null"@,
    }
}

fn exec_pow10(n: u8) -> (r: u64)
    requires
        n <= 9,
    ensures
        r as nat == pow10(n as nat),
        r >= 1,
{
    proof {
        reveal_with_fuel(pow10, 11);
    }
    if n == 0 { 1 }
    else if n == 1 { 10 }
    else if n == 2 { 100 }
    else if n == 3 { 1000 }
    else if n == 4 { 10000 }
    else if n == 5 { 100000 }
    else if n == 6 { 1000000 }
    else if n == 7 { 10000000 }
    else if n == 8 { 100000000 }
    else { 1000000000 }
}

fn push_frac(out: &mut String, r: u64, s: u8)
    ensures
        final(out)@ == old(out)@ + frac_digits(r as nat, s as nat),
    decreases s,
{
    if s > 0 {
        push_frac(out, r / 10, s - 1);
        push_char(out, exec_digit_char((r % 10) as u128));
    } else {
        proof {
            assert(final(out)@ =~= old(out)@ + frac_digits(r as nat, 0));
        }
    }
}

impl Decimal {
    /// The scale stays within the rendered precision.
    pub open spec fn wf(self) -> bool {
        self.scale <= 9
    }

    /// Renders the decimal as plain text, e.g. `18.25` or `7`.
    pub fn to_text(&self) -> (r: String)
        requires
            self.wf(),
        ensures
            r@ == dec_text(*self),
    {
        let mut r = String::new();
        if self.scale == 0 {
            push_u128(&mut r, self.mantissa as u128);
        } else {
            let p = exec_pow10(self.scale);
            push_u128(&mut r, (self.mantissa / p) as u128);
            push_char(&mut r, '.');
            push_frac(&mut r, self.mantissa % p, self.scale);
            proof {
                assert(r@ =~= dec_text(*self));
            }
        }
        r
    }
}

} // verus!

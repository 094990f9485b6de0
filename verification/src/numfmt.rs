//! Number formatting used on the match card (counts, ratios, percentages).
//!
//! Quantities are exact rationals of integer game stats; they are rendered
//! with the rounding the card uses: fixed-point text rounds to the nearest
//! value (exact ties to even digit), whole-number rounding rounds halves up.
use vstd::prelude::*;

use crate::text::{push_char, push_str};

verus! {

/// The ASCII digit for `d` (`0 <= d < 10`).
pub open spec fn digit_char(d: nat) -> char {
    (d + 48) as char
}

/// Decimal digits of `n`, most significant first, no leading zeros.
pub open spec fn decimal(n: nat) -> Seq<char>
    decreases n,
{
    if n < 10 {
        seq![digit_char(n)]
    } else {
        decimal(n / 10).push(digit_char(n % 10))
    }
}

/// Decimal text of a signed integer (`-` before negative numbers).
pub open spec fn signed_decimal(i: int) -> Seq<char> {
    if i < 0 {
        seq!['-'] + decimal((-i) as nat)
    } else {
        decimal(i as nat)
    }
}

fn digit(d: u128) -> (c: char)
    requires
        d < 10,
    ensures
        c == digit_char(d as nat),
{
    ((d as u8) + 48u8) as char
}

/// Appends the decimal digits of `n`.
pub fn push_decimal(s: &mut String, n: u128)
    ensures
        final(s)@ == old(s)@ + decimal(n as nat),
    decreases n,
{
    if n >= 10 {
        push_decimal(s, n / 10);
    }
    push_char(s, digit(n % 10));
}

/// Appends the decimal text of a signed integer.
pub fn push_signed(s: &mut String, v: i64)
    ensures
        final(s)@ == old(s)@ + signed_decimal(v as int),
{
    if v < 0 {
        push_char(s, '-');
        let m: u128 = (0i128 - (v as i128)) as u128;
        push_decimal(s, m);
        assert(final(s)@ == old(s)@ + signed_decimal(v as int));
    } else {
        push_decimal(s, v as u128);
    }
}

/// Decimal text of a signed integer (std's `to_string` on integers).
pub fn int_to_string(v: i64) -> (r: String)
    ensures
        r@ == signed_decimal(v as int),
{
    let mut r = String::new();
    push_signed(&mut r, v);
    r
}

/// `p / q` rounded to a whole number, exact ties to the even neighbour.
pub open spec fn round_half_even(p: nat, q: nat) -> nat
    recommends
        q > 0,
{
    let f = p / q;
    let r = p % q;
    if 2 * r > q {
        f + 1
    } else if 2 * r < q {
        f
    } else if f % 2 == 0 {
        f
    } else {
        f + 1
    }
}

/// `10^places` for the two precisions the card prints.
pub open spec fn scale(places: nat) -> nat {
    if places == 1 {
        10
    } else {
        100
    }
}

/// Fixed-point digits of `v / scale(places)` (`places` is 1 or 2).
pub open spec fn fixed_digits(v: nat, places: nat) -> Seq<char> {
    if places == 1 {
        decimal(v / 10) + seq!['.', digit_char(v % 10)]
    } else {
        decimal(v / 100) + seq!['.', digit_char((v / 10) % 10), digit_char(v % 10)]
    }
}

/// Fixed-point text of the non-negative rational `p / q` with `places`
/// decimals, as `{:.N}` prints it.
pub open spec fn fixed(p: nat, q: nat, places: nat) -> Seq<char> {
    fixed_digits(round_half_even(p * scale(places), q), places)
}

/// Whether the floating quotient `num / den` carries a minus sign: a
/// negative value, or a zero numerator over a negative denominator.
pub open spec fn quotient_negative(num: int, den: int) -> bool {
    if num == 0 {
        den < 0
    } else {
        (num < 0) != (den < 0)
    }
}


fn push_fixed_digits(s: &mut String, v: u128, places: u8)
    requires
        places == 1 || places == 2,
    ensures
        final(s)@ == old(s)@ + fixed_digits(v as nat, places as nat),
{
    if places == 1 {
        push_decimal(s, v / 10);
        push_char(s, '.');
        push_char(s, digit(v % 10));
        assert(final(s)@ =~= old(s)@ + fixed_digits(v as nat, places as nat));
    } else {
        push_decimal(s, v / 100);
        push_char(s, '.');
        push_char(s, digit((v / 10) % 10));
        push_char(s, digit(v % 10));
        assert(final(s)@ =~= old(s)@ + fixed_digits(v as nat, places as nat));
    }
}

pub(crate) fn round_half_even_exec(p: u128, q: u128) -> (r: u128)
    requires
        q > 0,
        p < u128::MAX / 4,
    ensures
        r == round_half_even(p as nat, q as nat),
{
    let f = p / q;
    let rem = p % q;
    assert(rem < q);
    if rem > q - rem {
        f + 1
    } else if rem < q - rem {
        f
    } else if f % 2 == 0 {
        f
    } else {
        f + 1
    }
}

/// Appends `p / q` with `places` decimals.
pub fn push_fixed(s: &mut String, p: u128, q: u128, places: u8)
    requires
        q > 0,
        p <= 0x4000_0000_0000_0000_0000_0000_0000,
        places == 1 || places == 2,
    ensures
        final(s)@ == old(s)@ + fixed(p as nat, q as nat, places as nat),
{
    let sc: u128 = if places == 1 {
        10
    } else {
        100
    };
    let r = round_half_even_exec(p * sc, q);
    push_fixed_digits(s, r, places);
}


} // verus!

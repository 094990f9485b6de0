//! The binary64 (`f64`) rounding that the card's numbers go through: the
//! double nearest to a positive rational, kept as an exact rational so that
//! its decimal text can be produced with integers.
use vstd::prelude::*;

use vstd::arithmetic::power2::{lemma2_to64_rest, lemma_pow2_unfold, pow2};

use crate::numfmt::{fixed, push_fixed, quotient_negative, round_half_even};
use crate::text::{push_char, push_str};

verus! {

/// `a·2^u` reaches `2^52·b`, while no smaller `u` does.
pub open spec fn is_up_shift(a: nat, b: nat, u: nat) -> bool {
    &&& a * pow2(u) >= pow2(52) * b
    &&& forall|w: nat| w < u ==> a * #[trigger] pow2(w) < pow2(52) * b
}

/// `a` falls below `2^53·b·2^v`, while it does for no smaller `v`.
pub open spec fn is_down_shift(a: nat, b: nat, v: nat) -> bool {
    &&& a < pow2(53) * b * pow2(v)
    &&& forall|w: nat| w < v ==> a >= pow2(53) * b * #[trigger] pow2(w)
}

/// The least `u` with `a·2^u >= 2^52·b`.
pub open spec fn up_shift(a: nat, b: nat) -> nat {
    choose|u: nat| is_up_shift(a, b, u)
}

/// The least `v` with `a < 2^53·b·2^v`.
pub open spec fn down_shift(a: nat, b: nat) -> nat {
    choose|v: nat| is_down_shift(a, b, v)
}

/// The double nearest to `a / b` (`b > 0`, quotient in the normal range), as
/// the rational `num / den`: scaled by `2^u / 2^v` the quotient lies in
/// `[2^52, 2^53)`, its integer part with ties to even is the 53-bit
/// significand, and scaling back gives the value.
pub open spec fn f64_quot(a: nat, b: nat) -> (nat, nat) {
    if a == 0 {
        (0, 1)
    } else {
        let u = up_shift(a, b);
        let v = down_shift(a, b);
        (round_half_even(a * pow2(u), b * pow2(v)) * pow2(v), pow2(u))
    }
}

proof fn lemma_up_shift_unique(a: nat, b: nat, u: nat)
    requires
        is_up_shift(a, b, u),
    ensures
        up_shift(a, b) == u,
{
    let c = up_shift(a, b);
    assert(is_up_shift(a, b, c));
    if c < u {
        assert(a * pow2(c) < pow2(52) * b);
    } else if u < c {
        assert(a * pow2(u) < pow2(52) * b);
    }
}

proof fn lemma_down_shift_unique(a: nat, b: nat, v: nat)
    requires
        is_down_shift(a, b, v),
    ensures
        down_shift(a, b) == v,
{
    let c = down_shift(a, b);
    assert(is_down_shift(a, b, c));
    if c < v {
        assert(a >= pow2(53) * b * pow2(c));
    } else if v < c {
        assert(a >= pow2(53) * b * pow2(v));
    }
}

proof fn lemma_scaled_bounds(a: nat, b: nat, pu: nat, pv: nat, u: nat, v: nat)
    requires
        a > 0,
        b > 0,
        is_up_shift(a, b, u),
        is_down_shift(a, b, v),
        pu == pow2(u),
        pv == pow2(v),
        pow2(0) == 1,
        pow2(52) == 0x10_0000_0000_0000,
        pow2(53) == 0x20_0000_0000_0000,
    ensures
        u == 0 || v == 0,
        u > 0 ==> pv == 1,
        v > 0 ==> pu == 1,
        pow2(52) * (b * pv) <= a * pu,
        a * pu < pow2(53) * (b * pv),
{
    if v > 0 {
        assert(a >= pow2(53) * b * pow2(0));
        if u > 0 {
            assert(a * pow2(0) < pow2(52) * b);
        }
    }
    if u > 0 {
        assert(a * pow2(0) < pow2(52) * b);
        assert(v == 0);
        lemma_pow2_unfold(u);
        assert(a * pow2((u - 1) as nat) < pow2(52) * b);
        assert(a * pu == 2 * (a * pow2((u - 1) as nat))) by (nonlinear_arith)
            requires
                pu == 2 * pow2((u - 1) as nat),
        ;
        assert(b * pv == b);
    } else if v > 0 {
        lemma_pow2_unfold(v);
        assert(a >= pow2(53) * b * pow2((v - 1) as nat));
        assert(pow2(53) * b * pow2((v - 1) as nat) == pow2(52) * (b * pv)) by (nonlinear_arith)
            requires
                pv == 2 * pow2((v - 1) as nat),
                pow2(53) == 2 * pow2(52),
        ;
        assert(pow2(53) * b * pv == pow2(53) * (b * pv)) by (nonlinear_arith);
        assert(a * pu == a);
    } else {
        assert(a * pu == a);
        assert(b * pv == b);
    }
}

proof fn lemma_mantissa_bounds(big_a: nat, big_b: nat, m: nat)
    requires
        big_b > 0,
        0x10_0000_0000_0000 * big_b <= big_a < 0x20_0000_0000_0000 * big_b,
        m == round_half_even(big_a, big_b),
    ensures
        1 <= m <= 0x20_0000_0000_0000,
        m * big_b <= 2 * big_a,
        big_a <= 2 * m * big_b,
{
    let f = big_a / big_b;
    let r = big_a % big_b;
    assert(big_a == big_b * f + r && r < big_b) by (nonlinear_arith)
        requires
            big_b > 0,
            f == big_a / big_b,
            r == big_a % big_b,
    ;
    assert(0x10_0000_0000_0000 <= f < 0x20_0000_0000_0000) by (nonlinear_arith)
        requires
            big_a == big_b * f + r,
            r < big_b,
            0x10_0000_0000_0000 * big_b <= big_a < 0x20_0000_0000_0000 * big_b,
            big_b > 0,
    ;
    assert(f <= m <= f + 1);
    assert(m * big_b <= 2 * big_a) by (nonlinear_arith)
        requires
            m <= f + 1,
            big_a == big_b * f + r,
            f >= 1,
    ;
    assert(big_a <= 2 * m * big_b) by (nonlinear_arith)
        requires
            f <= m,
            big_a == big_b * f + r,
            r < big_b,
            f >= 1,
    ;
}

/// The double nearest to `a / b`, as a rational (see [`f64_quot`]).
pub fn f64_quot_exec(a: u128, b: u128) -> (r: (u128, u128))
    requires
        0 < b < 0x1_0000_0000_0000_0000,
        a < 0x10_0000_0000_0000_0000_0000_0000,
    ensures
        (r.0 as nat, r.1 as nat) == f64_quot(a as nat, b as nat),
        r.1 >= 1,
        r.1 == 1 || r.0 <= 0x20_0000_0000_0000,
        r.1 == 1 || a * r.1 < 0x20_0000_0000_0000 * b,
        r.0 * b <= 2 * a * r.1,
        a * r.1 <= 2 * r.0 * b,
{
    if a == 0 {
        return (0, 1);
    }
    proof {
        vstd::arithmetic::power2::lemma2_to64();
        lemma2_to64_rest();
    }
    let lo: u128 = 0x10_0000_0000_0000;
    let hi: u128 = 0x20_0000_0000_0000;
    // Scale up until a·2^u >= 2^52·b.
    let mut pu: u128 = 1;
    let ghost mut u: nat = 0;
    assert(a * pu == a);
    assert(lo * b < 0x10_0000_0000_0000_0000_0000_0000_0000 && hi * b == 2 * (lo * b)) by (nonlinear_arith)
        requires
            lo == 0x10_0000_0000_0000,
            hi == 0x20_0000_0000_0000,
            b < 0x1_0000_0000_0000_0000,
    ;
    while a * pu < lo * b
        invariant
            lo * b < 0x10_0000_0000_0000_0000_0000_0000_0000,
            hi * b == 2 * (lo * b),
            0 < a < 0x10_0000_0000_0000_0000_0000_0000,
            0 < b < 0x1_0000_0000_0000_0000,
            lo == pow2(52),
            hi == pow2(53),
            hi == 2 * lo,
            pu == pow2(u),
            1 <= pu,
            a <= a * pu,
            a * pu <= 0x40_0000_0000_0000_0000_0000_0000_0000,
            u == 0 || a * pu < hi * b,
            forall|w: nat| w < u ==> a * #[trigger] pow2(w) < pow2(52) * b,
        decreases 2 * lo * b - a * pu,
    {
        proof {
            lemma_pow2_unfold(u + 1);
            assert(a * (pu * 2) == 2 * (a * pu)) by (nonlinear_arith);
            assert(pu <= a * pu) by (nonlinear_arith)
                requires
                    a >= 1,
                    pu >= 1,
            ;
        }
        let ghost prev = a * pu;
        pu = pu * 2;
        proof {
            u = u + 1;
            assert(a * pu == 2 * prev) by (nonlinear_arith)
                requires
                    prev == a * (pu / 2),
                    pu % 2 == 0,
            ;
        }
    }
    assert(is_up_shift(a as nat, b as nat, u));
    // Scale down until a < 2^53·b·2^v.
    let mut pv: u128 = 1;
    let ghost mut v: nat = 0;
    assert(hi * b * pv == hi * b);
    while a >= hi * b * pv
        invariant
            lo * b < 0x10_0000_0000_0000_0000_0000_0000_0000,
            hi * b == 2 * (lo * b),
            v == 0 || hi * b * pv <= 2 * a,
            v == 0 ==> pv == 1,
            hi * b * pv <= 0x40_0000_0000_0000_0000_0000_0000_0000,
            hi * b * pv >= 1,
            pv <= hi * b * pv,
            0 < a < 0x10_0000_0000_0000_0000_0000_0000,
            0 < b < 0x1_0000_0000_0000_0000,
            lo == pow2(52),
            hi == pow2(53),
            hi == 2 * lo,
            pv == pow2(v),
            1 <= pv,
            b <= b * pv,
            hi * b <= hi * b * pv,
            v == 0 || lo * b * pv <= a,
            forall|w: nat| w < v ==> a >= pow2(53) * b * #[trigger] pow2(w),
        decreases 2 * a - hi * b * pv,
    {
        proof {
            lemma_pow2_unfold(v + 1);
            assert(hi * b * (pv * 2) == 2 * (hi * b * pv)) by (nonlinear_arith);
            assert(lo * b * (2 * pv) == hi * b * pv) by (nonlinear_arith)
                requires
                    hi == 2 * lo,
            ;
            assert(b * (2 * pv) == 2 * (b * pv)) by (nonlinear_arith);
            assert(2 * pv <= hi * b * (2 * pv)) by (nonlinear_arith)
                requires
                    hi * b >= 1,
            ;
        }
        let ghost prev = hi * b * pv;
        pv = pv * 2;
        proof {
            v = v + 1;
            assert(hi * b * pv == 2 * prev) by (nonlinear_arith)
                requires
                    prev == hi * b * (pv / 2),
                    pv % 2 == 0,
            ;
        }
    }
    assert(is_down_shift(a as nat, b as nat, v));
    proof {
        lemma_up_shift_unique(a as nat, b as nat, u);
        lemma_down_shift_unique(a as nat, b as nat, v);
        lemma_scaled_bounds(a as nat, b as nat, pu as nat, pv as nat, u, v);
    }
    let big_a = a * pu;
    let big_b = b * pv;
    let m = crate::numfmt::round_half_even_exec(big_a, big_b);
    proof {
        lemma_mantissa_bounds(big_a as nat, big_b as nat, m as nat);
        if v > 0 {
            assert(pv < 0x1_0000_0000_0000) by (nonlinear_arith)
                requires
                    lo * b * pv <= a,
                    a < 0x10_0000_0000_0000_0000_0000_0000,
                    lo == 0x10_0000_0000_0000,
                    b >= 1,
            ;
        }
        assert(m * pv <= 0x20_0000_0000_0000 * pv) by (nonlinear_arith)
            requires
                m <= 0x20_0000_0000_0000,
        ;
        assert((m * pv) * b <= 2 * a * pu) by (nonlinear_arith)
            requires
                m * big_b <= 2 * big_a,
                big_b == b * pv,
                big_a == a * pu,
        ;
        assert(a * pu <= 2 * (m * pv) * b) by (nonlinear_arith)
            requires
                big_a <= 2 * m * big_b,
                big_b == b * pv,
                big_a == a * pu,
        ;
    }
    (m * pv, pu)
}

/// Magnitude of an integer.
pub open spec fn magnitude(x: int) -> nat {
    if x < 0 {
        (-x) as nat
    } else {
        x as nat
    }
}

/// `format!("{:.N}", num as f64 / den as f64)` for integers whose magnitude
/// is at most `2^53` (so the doubles hold them exactly): the sign of the
/// quotient, then the double nearest to `|num| / |den|` printed with
/// `places` decimals, exact ties to even.
pub open spec fn f64_ratio_text(num: int, den: int, places: nat) -> Seq<char> {
    let q = f64_quot(magnitude(num), magnitude(den));
    let mag = fixed(q.0, q.1, places);
    if quotient_negative(num, den) {
        seq!['-'] + mag
    } else {
        mag
    }
}

/// `n as f64 / d as f64` for `n >= 0`, `d > 0` exact in a double: the double
/// nearest to `n`, then the double nearest to its quotient by `d`.
pub open spec fn f64_int_div(n: nat, d: nat) -> (nat, nat) {
    let x = f64_quot(n, 1);
    f64_quot(x.0, x.1 * d)
}

/// `format!("{:.1}", cs as f64 / (secs as f64 / 60.0))`, the creep score per
/// minute as the card prints it; `0.0` for a game of no length.
pub open spec fn cs_per_minute_text(cs: int, secs: int) -> Seq<char> {
    if secs == 0 {
        "0.0"@
    } else {
        let s = f64_quot(magnitude(secs), 1);
        let minutes = f64_quot(s.0, s.1 * 60);
        let q = f64_quot(magnitude(cs) * minutes.1, minutes.0);
        let mag = fixed(q.0, q.1, 1);
        if quotient_negative(cs, secs) {
            seq!['-'] + mag
        } else {
            mag
        }
    }
}

fn magnitude_exec(x: i64) -> (r: u128)
    ensures
        r == magnitude(x as int),
        r <= 0x8000_0000_0000_0000,
{
    if x < 0 {
        (0i128 - x as i128) as u128
    } else {
        x as u128
    }
}

fn push_sign(s: &mut String, num: i64, den: i64)
    ensures
        final(s)@ == if quotient_negative(num as int, den as int) {
            old(s)@ + seq!['-']
        } else {
            old(s)@
        },
{
    let neg = if num == 0 {
        den < 0
    } else {
        (num < 0) != (den < 0)
    };
    if neg {
        push_char(s, '-');
    }
}

/// Text of `num as f64 / den as f64` with `places` decimals.
pub fn f64_ratio_string(num: i64, den: i64, places: u8) -> (r: String)
    requires
        den != 0,
        -0x20_0000_0000_0000 <= num <= 0x20_0000_0000_0000,
        -0x20_0000_0000_0000 <= den <= 0x20_0000_0000_0000,
        places == 1 || places == 2,
    ensures
        r@ == f64_ratio_text(num as int, den as int, places as nat),
{
    let mut r = String::new();
    push_sign(&mut r, num, den);
    let q = f64_quot_exec(magnitude_exec(num), magnitude_exec(den));
    proof {
        quot_num_bound(magnitude(num as int), magnitude(den as int), q.0 as nat, q.1 as nat);
    }
    push_fixed(&mut r, q.0, q.1, places);
    r
}

/// A numerator of [`f64_quot`] of `a` over `b >= 1` is at most `2a + 2^53`.
proof fn quot_num_bound(a: nat, b: nat, n: nat, d: nat)
    requires
        b >= 1,
        d >= 1,
        d == 1 || n <= 0x20_0000_0000_0000,
        n * b <= 2 * a * d,
    ensures
        n <= 2 * a + 0x20_0000_0000_0000,
{
    if d == 1 {
        assert(n <= n * b) by (nonlinear_arith)
            requires
                b >= 1,
        ;
    }
}

/// `n as f64 / d as f64` as a rational (see [`f64_int_div`]).
pub fn f64_int_div_exec(n: u64, d: u64) -> (r: (u128, u128))
    requires
        1 <= d <= n,
        d <= 0x20_0000_0000_0000,
    ensures
        (r.0 as nat, r.1 as nat) == f64_int_div(n as nat, d as nat),
        r.0 <= 0x8_0000_0000_0000_0000,
        r.1 >= 1,
{
    let x = f64_quot_exec(n as u128, 1);
    let (xn, xd) = x;
    proof {
        quot_num_bound(n as nat, 1, xn as nat, xd as nat);
        scaled_den_bound(n as nat, d as nat, xd as nat);
    }
    let q = f64_quot_exec(xn, xd * d as u128);
    proof {
        quot_num_bound(xn as nat, (xd * d) as nat, q.0 as nat, q.1 as nat);
    }
    q
}

/// The denominator of the double nearest to `n` (a power of two, `1` for
/// large `n`), times a divisor `d <= n`, stays below `2^53`.
proof fn scaled_den_bound(n: nat, d: nat, xd: nat)
    requires
        1 <= d <= n,
        d <= 0x20_0000_0000_0000,
        xd >= 1,
        xd == 1 || n * xd < 0x20_0000_0000_0000 * 1,
    ensures
        1 <= xd * d <= 0x20_0000_0000_0000,
{
    assert(xd * d >= 1) by (nonlinear_arith)
        requires
            xd >= 1,
            d >= 1,
    ;
    if xd == 1 {
        assert(xd * d == d) by (nonlinear_arith)
            requires
                xd == 1,
        ;
    } else {
        assert(xd * d <= xd * n) by (nonlinear_arith)
            requires
                d <= n,
        ;
        assert(xd * n == n * xd) by (nonlinear_arith);
    }
}

/// The creep score per minute as the card prints it (see
/// [`cs_per_minute_text`]).
pub fn cs_per_minute_string(cs: i32, secs: i64) -> (r: String)
    ensures
        r@ == cs_per_minute_text(cs as int, secs as int),
{
    if secs == 0 {
        let mut r = String::new();
        push_str(&mut r, "0.0");
        proof {
            reveal_strlit("0.0");
        }
        return r;
    }
    let mut r = String::new();
    push_sign(&mut r, cs as i64, secs);
    let ms = magnitude_exec(secs);
    let (sn, sd) = f64_quot_exec(ms, 1);
    proof {
        quot_num_bound(ms as nat, 1, sn as nat, sd as nat);
        minutes_bounds(ms as nat, sn as nat, sd as nat);
    }
    let (mn, md) = f64_quot_exec(sn, sd * 60);
    proof {
        cs_bounds(sn as nat, sd as nat, mn as nat, md as nat);
    }
    let m = magnitude_exec(cs as i64);
    proof {
        assert(m * md <= 0x8000_0000 * 0x10_0000_0000_0000_0000) by (nonlinear_arith)
            requires
                m <= 0x8000_0000,
                md <= 0x10_0000_0000_0000_0000,
        ;
    }
    let q = f64_quot_exec(m * md, mn);
    proof {
        quot_num_bound((m * md) as nat, mn as nat, q.0 as nat, q.1 as nat);
    }
    push_fixed(&mut r, q.0, q.1, 1);
    r
}

/// The double of a game length `ms >= 1` seconds: its denominator keeps
/// `60·den` below `2^64`, and its numerator is positive.
proof fn minutes_bounds(ms: nat, sn: nat, sd: nat)
    requires
        1 <= ms <= 0x8000_0000_0000_0000,
        sd >= 1,
        sd == 1 || ms * sd < 0x20_0000_0000_0000 * 1,
        ms * sd <= 2 * sn * 1,
        sn * 1 <= 2 * ms * sd,
    ensures
        sd * 60 < 0x1_0000_0000_0000_0000,
        1 <= sn,
        sd <= 2 * sn,
{
    assert(sd <= ms * sd) by (nonlinear_arith)
        requires
            ms >= 1,
    ;
}

/// The double of the minutes, `mn / md`, is positive, its numerator fits a
/// 64-bit denominator and its denominator is at most `2^68`.
proof fn cs_bounds(sn: nat, sd: nat, mn: nat, md: nat)
    requires
        1 <= sn,
        sd >= 1,
        sd <= 2 * sn,
        sd * 60 < 0x1_0000_0000_0000_0000,
        sn <= 0x4_0000_0000_0000_0000,
        md >= 1,
        md == 1 || mn <= 0x20_0000_0000_0000,
        md == 1 || sn * md < 0x20_0000_0000_0000 * (sd * 60),
        mn * (sd * 60) <= 2 * sn * md,
        sn * md <= 2 * mn * (sd * 60),
    ensures
        1 <= mn < 0x1_0000_0000_0000_0000,
        md <= 0x10_0000_0000_0000_0000,
{
    assert(mn >= 1) by (nonlinear_arith)
        requires
            sn * md <= 2 * mn * (sd * 60),
            sn >= 1,
            md >= 1,
    ;
    if md == 1 {
        assert(mn * 60 <= mn * (sd * 60)) by (nonlinear_arith)
            requires
                sd >= 1,
        ;
        assert(mn * (sd * 60) <= 2 * sn) by (nonlinear_arith)
            requires
                mn * (sd * 60) <= 2 * sn * md,
                md == 1,
        ;
    } else {
        assert(sn * md < 0x20_0000_0000_0000 * 60 * (2 * sn)) by (nonlinear_arith)
            requires
                sn * md < 0x20_0000_0000_0000 * (sd * 60),
                sd <= 2 * sn,
        ;
        assert(md < 0x20_0000_0000_0000 * 60 * 2) by (nonlinear_arith)
            requires
                sn * md < 0x20_0000_0000_0000 * 60 * (2 * sn),
                sn >= 1,
        ;
    }
}

} // verus!

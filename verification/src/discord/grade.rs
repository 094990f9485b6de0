//! Performance grade (S+ … D) shown in the card's sidebar diamond.
//!
//! A role-relative composite of five derived stats — KDA, kill participation,
//! CS per minute, damage share and vision per minute. Each is divided by the
//! role's baseline (a solid game's value), floored at 0 and capped at 1.2 so
//! one stat cannot buy the top bucket alone; the five ratios are blended with
//! per-role weights summing to 1 and the blend is bucketed. Meeting every
//! baseline scores exactly 1 (an S). The score is computed exactly, as a
//! rational number.
use vstd::prelude::*;

use crate::riot::types::Ratio;
use crate::text::str_eq;
use crate::wide::{from_u128, ge, mul_u64, value};

verus! {

/// Performance bucket, ordered worst to best.
#[derive(Debug, Clone, Copy, PartialEq, Eq, PartialOrd, Ord, Structural)]
pub enum Grade {
    D,
    C,
    B,
    A,
    S,
    SPlus,
}

/// Badge text of a grade.
pub open spec fn grade_label(g: Grade) -> Seq<char> {
    match g {
        Grade::SPlus => "S+"@,
        Grade::S => "S"@,
        Grade::A => "A"@,
        Grade::B => "B"@,
        Grade::C => "C"@,
        Grade::D => "D"@,
    }
}

impl Grade {
    /// The badge text (`S+`, `S`, `A`, …).
    pub fn label(self) -> (r: &'static str)
        ensures
            r@ == grade_label(self),
    {
        match self {
            Grade::SPlus => "S+",
            Grade::S => "S",
            Grade::A => "A",
            Grade::B => "B",
            Grade::C => "C",
            Grade::D => "D",
        }
    }
}

/// Baselines of a role (tenths: `45` is 4.5; KP and damage share in percent
/// tenths) and blend weights (hundredths, summing to 100).
#[derive(Debug, Clone, Copy, PartialEq, Eq, Structural)]
pub struct RoleProfile {
    pub kda: u64,
    pub kp: u64,
    pub cs_per_min: u64,
    pub damage_share: u64,
    pub vision_per_min: u64,
    pub w_kda: u64,
    pub w_kp: u64,
    pub w_cs: u64,
    pub w_damage: u64,
    pub w_vision: u64,
}

/// Baseline and weighting for a `teamPosition`; any other position (ARAM,
/// unknown) uses a generic profile leaning on fighting stats.
pub open spec fn profile_of(role: Seq<char>) -> RoleProfile {
    if role == "TOP"@ {
        RoleProfile {
            kda: 40,
            kp: 550,
            cs_per_min: 70,
            damage_share: 220,
            vision_per_min: 8,
            w_kda: 30,
            w_kp: 15,
            w_cs: 20,
            w_damage: 25,
            w_vision: 10,
        }
    } else if role == "JUNGLE"@ {
        RoleProfile {
            kda: 40,
            kp: 650,
            cs_per_min: 55,
            damage_share: 180,
            vision_per_min: 12,
            w_kda: 25,
            w_kp: 25,
            w_cs: 15,
            w_damage: 15,
            w_vision: 20,
        }
    } else if role == "MIDDLE"@ {
        RoleProfile {
            kda: 45,
            kp: 600,
            cs_per_min: 75,
            damage_share: 270,
            vision_per_min: 8,
            w_kda: 28,
            w_kp: 18,
            w_cs: 19,
            w_damage: 27,
            w_vision: 8,
        }
    } else if role == "BOTTOM"@ {
        RoleProfile {
            kda: 45,
            kp: 580,
            cs_per_min: 80,
            damage_share: 280,
            vision_per_min: 7,
            w_kda: 28,
            w_kp: 15,
            w_cs: 22,
            w_damage: 28,
            w_vision: 7,
        }
    } else if role == "UTILITY"@ {
        RoleProfile {
            kda: 35,
            kp: 680,
            cs_per_min: 15,
            damage_share: 120,
            vision_per_min: 18,
            w_kda: 30,
            w_kp: 30,
            w_cs: 5,
            w_damage: 10,
            w_vision: 25,
        }
    } else {
        RoleProfile {
            kda: 40,
            kp: 600,
            cs_per_min: 60,
            damage_share: 250,
            vision_per_min: 6,
            w_kda: 35,
            w_kp: 25,
            w_cs: 10,
            w_damage: 25,
            w_vision: 5,
        }
    }
}

/// Every profile has positive baselines and weights summing to 100.
pub open spec fn profile_wf(p: RoleProfile) -> bool {
    &&& 0 < p.kda <= 1000
    &&& 0 < p.kp <= 1000
    &&& 0 < p.cs_per_min <= 1000
    &&& 0 < p.damage_share <= 1000
    &&& 0 < p.vision_per_min <= 1000
    &&& p.w_kda + p.w_kp + p.w_cs + p.w_damage + p.w_vision == 100
}

/// Every role's profile has positive baselines and positive weights summing
/// to one (100 hundredths); a position other than the five lanes (ARAM, an
/// unknown one) gets the generic profile (KDA 4.0, KP 60%, 6.0 CS/min, 25%
/// damage share, 0.6 vision/min).
pub proof fn lemma_profiles_well_formed(role: Seq<char>)
    ensures
        profile_wf(profile_of(role)),
        profile_of(role).w_kda > 0 && profile_of(role).w_kp > 0 && profile_of(role).w_cs > 0
            && profile_of(role).w_damage > 0 && profile_of(role).w_vision > 0,
        role != "TOP"@ && role != "JUNGLE"@ && role != "MIDDLE"@ && role != "BOTTOM"@ && role
            != "UTILITY"@ ==> {
            let p = profile_of(role);
            &&& p.kda == 40 && p.kp == 600 && p.cs_per_min == 60
            &&& p.damage_share == 250 && p.vision_per_min == 6
        },
{
}

/// The weights follow what each role is expected to do: supports barely
/// farm, so no role weighs CS/min less than the support; supports and
/// junglers ward far more, so both weigh vision/min above every other role
/// (the support most); a position other than the five lanes leans on
/// fighting (KDA, kill participation, damage) over farm and vision.
pub proof fn lemma_weights_follow_roles(role: Seq<char>)
    ensures
        role != "UTILITY"@ ==> profile_of("UTILITY"@).w_cs < profile_of(role).w_cs,
        profile_of("JUNGLE"@).w_vision < profile_of("UTILITY"@).w_vision,
        role != "UTILITY"@ && role != "JUNGLE"@ ==> profile_of(role).w_vision < profile_of(
            "JUNGLE"@,
        ).w_vision,
        role != "TOP"@ && role != "JUNGLE"@ && role != "MIDDLE"@ && role != "BOTTOM"@ && role
            != "UTILITY"@ ==> {
            let p = profile_of(role);
            p.w_kda + p.w_kp + p.w_damage > p.w_cs + p.w_vision
        },
{
    reveal_strlit("UTILITY");
    reveal_strlit("TOP");
    reveal_strlit("JUNGLE");
    reveal_strlit("MIDDLE");
    reveal_strlit("BOTTOM");
    assert("UTILITY"@.len() == 7 && "TOP"@.len() == 3 && "JUNGLE"@.len() == 6);
    assert("MIDDLE"@.len() == 6 && "BOTTOM"@.len() == 6);
    assert("JUNGLE"@[0] != "MIDDLE"@[0] && "JUNGLE"@[0] != "BOTTOM"@[0]);
}

fn profile(role: &str) -> (p: RoleProfile)
    ensures
        p == profile_of(role@),
        profile_wf(p),
{
    if str_eq(role, "TOP") {
        RoleProfile {
            kda: 40,
            kp: 550,
            cs_per_min: 70,
            damage_share: 220,
            vision_per_min: 8,
            w_kda: 30,
            w_kp: 15,
            w_cs: 20,
            w_damage: 25,
            w_vision: 10,
        }
    } else if str_eq(role, "JUNGLE") {
        RoleProfile {
            kda: 40,
            kp: 650,
            cs_per_min: 55,
            damage_share: 180,
            vision_per_min: 12,
            w_kda: 25,
            w_kp: 25,
            w_cs: 15,
            w_damage: 15,
            w_vision: 20,
        }
    } else if str_eq(role, "MIDDLE") {
        RoleProfile {
            kda: 45,
            kp: 600,
            cs_per_min: 75,
            damage_share: 270,
            vision_per_min: 8,
            w_kda: 28,
            w_kp: 18,
            w_cs: 19,
            w_damage: 27,
            w_vision: 8,
        }
    } else if str_eq(role, "BOTTOM") {
        RoleProfile {
            kda: 45,
            kp: 580,
            cs_per_min: 80,
            damage_share: 280,
            vision_per_min: 7,
            w_kda: 28,
            w_kp: 15,
            w_cs: 22,
            w_damage: 28,
            w_vision: 7,
        }
    } else if str_eq(role, "UTILITY") {
        RoleProfile {
            kda: 35,
            kp: 680,
            cs_per_min: 15,
            damage_share: 120,
            vision_per_min: 18,
            w_kda: 30,
            w_kp: 30,
            w_cs: 5,
            w_damage: 10,
            w_vision: 25,
        }
    } else {
        RoleProfile {
            kda: 40,
            kp: 600,
            cs_per_min: 60,
            damage_share: 250,
            vision_per_min: 6,
            w_kda: 35,
            w_kp: 25,
            w_cs: 10,
            w_damage: 25,
            w_vision: 5,
        }
    }
}

/// Stats fed into the grade; `role` selects the baselines they are measured
/// against. KDA and the per-minute rates are exact ratios.
#[derive(Debug, Clone, Copy)]
pub struct GradeInput<'a> {
    pub role: &'a str,
    pub kda: Ratio,
    pub kp: u8,
    pub cs_per_min: Ratio,
    pub damage_share: u8,
    pub vision_per_min: Ratio,
}

/// What a [`GradeInput`] says, with the role read by value.
pub struct GradeFacts {
    pub role: Seq<char>,
    pub kda: Ratio,
    pub kp: u8,
    pub cs_per_min: Ratio,
    pub damage_share: u8,
    pub vision_per_min: Ratio,
}

impl<'a> View for GradeInput<'a> {
    type V = GradeFacts;

    open spec fn view(&self) -> GradeFacts {
        GradeFacts {
            role: self.role@,
            kda: self.kda,
            kp: self.kp,
            cs_per_min: self.cs_per_min,
            damage_share: self.damage_share,
            vision_per_min: self.vision_per_min,
        }
    }
}

/// Every ratio of the input has a non-zero denominator.
pub open spec fn grade_input_wf(input: GradeFacts) -> bool {
    &&& input.kda.den != 0
    &&& input.cs_per_min.den != 0
    &&& input.vision_per_min.den != 0
}

/// `actual / (base / 10)` floored at 0 and capped at 6/5, as a fraction
/// `(numerator, denominator)` with a positive denominator.
pub open spec fn component(num: int, den: int, base: int) -> (int, int) {
    let n = if den < 0 {
        -num
    } else {
        num
    };
    let d = if den < 0 {
        -den
    } else {
        den
    };
    if n <= 0 {
        (0, 1)
    } else if 100 * n >= 12 * d * base {
        (6, 5)
    } else {
        (10 * n, d * base)
    }
}

/// The five clamped component ratios of an input, in blend order.
pub open spec fn components(input: GradeFacts) -> Seq<(int, int)> {
    let p = profile_of(input.role);
    seq![
        component(input.kda.num as int, input.kda.den as int, p.kda as int),
        component(input.kp as int, 1, p.kp as int),
        component(input.cs_per_min.num as int, input.cs_per_min.den as int, p.cs_per_min as int),
        component(input.damage_share as int, 1, p.damage_share as int),
        component(input.vision_per_min.num as int, input.vision_per_min.den as int, p.vision_per_min as int),
    ]
}

/// The blend weights of an input's role, in blend order (hundredths).
pub open spec fn weights(input: GradeFacts) -> Seq<int> {
    let p = profile_of(input.role);
    seq![p.w_kda as int, p.w_kp as int, p.w_cs as int, p.w_damage as int, p.w_vision as int]
}

/// `Σ w_i · p_i / q_i` as a fraction `(numerator, denominator)`.
pub open spec fn weighted_sum(cs: Seq<(int, int)>, ws: Seq<int>) -> (int, int)
    decreases cs.len(),
{
    if cs.len() == 0 || ws.len() == 0 {
        (0, 1)
    } else {
        let (n, d) = weighted_sum(cs.drop_last(), ws.drop_last());
        let (p, q) = cs.last();
        (n * q + ws.last() * p * d, d * q)
    }
}

/// The blended score in hundredths, as a fraction (`num / den` hundredths).
pub open spec fn score(input: GradeFacts) -> (int, int) {
    weighted_sum(components(input), weights(input))
}

/// The score is at least `t` hundredths.
pub open spec fn score_at_least(input: GradeFacts, t: int) -> bool {
    score(input).0 >= t * score(input).1
}

/// Bucket of the score: ≥ 1.02 S+, ≥ 0.90 S, ≥ 0.76 A, ≥ 0.60 B, ≥ 0.44 C, else D.
pub open spec fn grade_of(input: GradeFacts) -> Grade {
    if score_at_least(input, 102) {
        Grade::SPlus
    } else if score_at_least(input, 90) {
        Grade::S
    } else if score_at_least(input, 76) {
        Grade::A
    } else if score_at_least(input, 60) {
        Grade::B
    } else if score_at_least(input, 44) {
        Grade::C
    } else {
        Grade::D
    }
}

/// A clamped component as factor pairs: `p = p1 * p2`, `q = q1 * q2`.
struct Factors {
    p1: u64,
    p2: u64,
    q1: u64,
    q2: u64,
}

fn component_factors(num: i64, den: i64, base: u64) -> (f: Factors)
    requires
        den != 0,
        0 < base <= 1000,
    ensures
        component(num as int, den as int, base as int) == (f.p1 * f.p2, f.q1 * f.q2),
        f.q1 * f.q2 > 0,
{
    let (n, d): (i128, i128) = if den < 0 {
        (0 - num as i128, 0 - den as i128)
    } else {
        (num as i128, den as i128)
    };
    if n <= 0 {
        Factors { p1: 0, p2: 1, q1: 1, q2: 1 }
    } else {
        proof {
            assert(12 * d * base <= 12 * 0x8000_0000_0000_0000 * 1000) by (nonlinear_arith)
                requires
                    0 < d <= 0x8000_0000_0000_0000,
                    0 < base <= 1000,
            ;
        }
        if 100 * n >= 12 * d * (base as i128) {
            Factors { p1: 6, p2: 1, q1: 5, q2: 1 }
        } else {
            proof {
                assert(d * base > 0) by (nonlinear_arith)
                    requires
                        d > 0,
                        base > 0,
                ;
            }
            Factors { p1: 10, p2: n as u64, q1: d as u64, q2: base }
        }
    }
}

fn mul2(a: &Vec<u64>, x: u64, y: u64) -> (r: Vec<u64>)
    ensures
        value(r@) == value(a@) * (x * y),
{
    let t = mul_u64(a, x);
    let r = mul_u64(&t, y);
    proof {
        assert(value(a@) * x * y == value(a@) * (x * y)) by (nonlinear_arith);
    }
    r
}

/// Folds one weighted component into the running fraction `n / d`.
fn fold_component(n: &Vec<u64>, d: &Vec<u64>, w: u64, f: &Factors) -> (r: (Vec<u64>, Vec<u64>))
    ensures
        value(r.0@) == value(n@) * (f.q1 * f.q2) + w * (f.p1 * f.p2) * value(d@),
        value(r.1@) == value(d@) * (f.q1 * f.q2),
{
    let nq = mul2(n, f.q1, f.q2);
    let wd = mul_u64(d, w);
    let wpd = mul2(&wd, f.p1, f.p2);
    let new_n = crate::wide::add(&nq, &wpd);
    let new_d = mul2(d, f.q1, f.q2);
    proof {
        assert(value(d@) * w * (f.p1 * f.p2) == w * (f.p1 * f.p2) * value(d@)) by (nonlinear_arith);
    }
    (new_n, new_d)
}

/// Score a performance into a [`Grade`].
pub fn evaluate(input: &GradeInput) -> (g: Grade)
    requires
        grade_input_wf(input@),
    ensures
        g == grade_of(input@),
{
    let p = profile(input.role);
    let c0 = component_factors(input.kda.num, input.kda.den, p.kda);
    let c1 = component_factors(input.kp as i64, 1, p.kp);
    let c2 = component_factors(input.cs_per_min.num, input.cs_per_min.den, p.cs_per_min);
    let c3 = component_factors(input.damage_share as i64, 1, p.damage_share);
    let c4 = component_factors(input.vision_per_min.num, input.vision_per_min.den, p.vision_per_min);
    let n0 = from_u128(0);
    let d0 = from_u128(1);
    let (n1, d1) = fold_component(&n0, &d0, p.w_kda, &c0);
    let (n2, d2) = fold_component(&n1, &d1, p.w_kp, &c1);
    let (n3, d3) = fold_component(&n2, &d2, p.w_cs, &c2);
    let (n4, d4) = fold_component(&n3, &d3, p.w_damage, &c3);
    let (n5, d5) = fold_component(&n4, &d4, p.w_vision, &c4);
    proof {
        let cs = components(input@);
        let ws = weights(input@);
        assert(cs.drop_last().drop_last().drop_last().drop_last().drop_last() =~= Seq::<(int, int)>::empty());
        assert(ws.drop_last().drop_last().drop_last().drop_last().drop_last() =~= Seq::<int>::empty());
        assert(weighted_sum(cs.take(1), ws.take(1)) == (value(n1@) as int, value(d1@) as int)) by {
            assert(cs.take(1).drop_last() =~= Seq::<(int, int)>::empty());
            assert(ws.take(1).drop_last() =~= Seq::<int>::empty());
            assert(cs.take(1).last() == cs[0]);
            assert(ws.take(1).last() == ws[0]);
            assert(weighted_sum(Seq::<(int, int)>::empty(), Seq::<int>::empty()) == (0int, 1int));
            assert(value(n1@) == 0 * (c0.q1 * c0.q2) + p.w_kda * (c0.p1 * c0.p2) * 1);
            assert(value(d1@) == 1 * (c0.q1 * c0.q2));
        }
        assert(cs.take(2).drop_last() =~= cs.take(1));
        assert(ws.take(2).drop_last() =~= ws.take(1));
        assert(cs.take(3).drop_last() =~= cs.take(2));
        assert(ws.take(3).drop_last() =~= ws.take(2));
        assert(cs.take(4).drop_last() =~= cs.take(3));
        assert(ws.take(4).drop_last() =~= ws.take(3));
        assert(cs.take(5) =~= cs);
        assert(ws.take(5) =~= ws);
        assert(cs.drop_last() =~= cs.take(4));
        assert(ws.drop_last() =~= ws.take(4));
        assert(weighted_sum(cs.take(2), ws.take(2)) == (value(n2@) as int, value(d2@) as int));
        assert(weighted_sum(cs.take(3), ws.take(3)) == (value(n3@) as int, value(d3@) as int));
        assert(weighted_sum(cs.take(4), ws.take(4)) == (value(n4@) as int, value(d4@) as int));
        assert(score(input@) == (value(n5@) as int, value(d5@) as int));
    }
    if ge(&n5, &mul_u64(&d5, 102)) {
        Grade::SPlus
    } else if ge(&n5, &mul_u64(&d5, 90)) {
        Grade::S
    } else if ge(&n5, &mul_u64(&d5, 76)) {
        Grade::A
    } else if ge(&n5, &mul_u64(&d5, 60)) {
        Grade::B
    } else if ge(&n5, &mul_u64(&d5, 44)) {
        Grade::C
    } else {
        Grade::D
    }
}

// ----------------------------------------------------------------------------
// Laws of the grade
// ----------------------------------------------------------------------------

/// Rank of a grade, `0` for D up to `5` for S+ (the order of [`Grade`]).
pub open spec fn grade_rank(g: Grade) -> int {
    match g {
        Grade::D => 0,
        Grade::C => 1,
        Grade::B => 2,
        Grade::A => 3,
        Grade::S => 4,
        Grade::SPlus => 5,
    }
}

/// Numerator of a ratio over a positive denominator.
pub open spec fn norm_num(r: Ratio) -> int {
    if r.den < 0 {
        -r.num
    } else {
        r.num as int
    }
}

/// Positive denominator of a (non-zero-denominator) ratio.
pub open spec fn norm_den(r: Ratio) -> int {
    if r.den < 0 {
        -r.den
    } else {
        r.den as int
    }
}

/// `a <= b` as rational numbers.
pub open spec fn ratio_le(a: Ratio, b: Ratio) -> bool {
    norm_num(a) * norm_den(b) <= norm_num(b) * norm_den(a)
}

/// `p1 / q1 <= p2 / q2` for positive `q1`, `q2`.
pub open spec fn frac_le(x: (int, int), y: (int, int)) -> bool {
    x.0 * y.1 <= y.0 * x.1
}

/// The ratio meets the baseline `base` (tenths) exactly.
pub open spec fn at_baseline(num: int, den: int, base: int) -> bool {
    den != 0 && 10 * num == base * den
}

proof fn lemma_profile_wf(role: Seq<char>)
    ensures
        profile_wf(profile_of(role)),
{
}

proof fn lemma_component_den(num: int, den: int, base: int)
    requires
        den != 0,
        base > 0,
    ensures
        component(num, den, base).1 > 0,
        component(num, den, base).0 >= 0,
{
    let d = if den < 0 { -den } else { den };
    assert(d * base > 0) by (nonlinear_arith)
        requires
            d > 0,
            base > 0,
    ;
}

proof fn lemma_component_monotone(n1: int, d1: int, n2: int, d2: int, base: int)
    requires
        d1 != 0,
        d2 != 0,
        base > 0,
        (if d1 < 0 { -n1 } else { n1 }) * (if d2 < 0 { -d2 } else { d2 }) <= (if d2 < 0 {
            -n2
        } else {
            n2
        }) * (if d1 < 0 { -d1 } else { d1 }),
    ensures
        frac_le(component(n1, d1, base), component(n2, d2, base)),
{
    let a = if d1 < 0 { -n1 } else { n1 };
    let b = if d1 < 0 { -d1 } else { d1 };
    let c = if d2 < 0 { -n2 } else { n2 };
    let e = if d2 < 0 { -d2 } else { d2 };
    lemma_component_den(n2, d2, base);
    if a <= 0 {
    } else if 100 * a >= 12 * b * base {
        assert(c > 0 && 100 * c >= 12 * e * base) by (nonlinear_arith)
            requires
                a > 0,
                b > 0,
                e > 0,
                base > 0,
                a * e <= c * b,
                100 * a >= 12 * b * base,
        ;
    } else {
        assert(c > 0) by (nonlinear_arith)
            requires
                a > 0,
                b > 0,
                e > 0,
                a * e <= c * b,
        ;
        if 100 * c >= 12 * e * base {
            assert(10 * a * 5 <= 6 * (b * base)) by (nonlinear_arith)
                requires
                    100 * a < 12 * b * base,
            ;
        } else {
            assert(10 * a * (e * base) <= 10 * c * (b * base)) by (nonlinear_arith)
                requires
                    a * e <= c * b,
                    base > 0,
            ;
        }
    }
}

proof fn lemma_add_frac_monotone(a: int, b: int, c: int, d: int, e: int, f: int, g: int, h: int, w: int)
    requires
        b > 0,
        d > 0,
        f > 0,
        h > 0,
        w >= 0,
        a * d <= c * b,
        e * h <= g * f,
    ensures
        (a * f + w * e * b) * (d * h) <= (c * h + w * g * d) * (b * f),
        b * f > 0,
        d * h > 0,
{
    assert(a * d * (f * h) <= c * b * (f * h)) by (nonlinear_arith)
        requires
            a * d <= c * b,
            f > 0,
            h > 0,
    ;
    assert(w * (b * d) * (e * h) <= w * (b * d) * (g * f)) by (nonlinear_arith)
        requires
            e * h <= g * f,
            w >= 0,
            b > 0,
            d > 0,
    ;
    let (x, y) = (a * f, w * e * b);
    let (u, v) = (c * h, w * g * d);
    vstd::arithmetic::mul::lemma_mul_is_distributive_add_other_way(d * h, x, y);
    vstd::arithmetic::mul::lemma_mul_is_distributive_add_other_way(b * f, u, v);
    assert(x * (d * h) == a * d * (f * h)) by (nonlinear_arith)
        requires
            x == a * f,
    ;
    assert(y * (d * h) == w * (b * d) * (e * h)) by (nonlinear_arith)
        requires
            y == w * e * b,
    ;
    assert(u * (b * f) == c * b * (f * h)) by (nonlinear_arith)
        requires
            u == c * h,
    ;
    assert(v * (b * f) == w * (b * d) * (g * f)) by (nonlinear_arith)
        requires
            v == w * g * d,
    ;
    assert(b * f > 0 && d * h > 0) by (nonlinear_arith)
        requires
            b > 0,
            d > 0,
            f > 0,
            h > 0,
    ;
}

proof fn lemma_weighted_sum_monotone(c1: Seq<(int, int)>, c2: Seq<(int, int)>, ws: Seq<int>)
    requires
        c1.len() == c2.len(),
        c1.len() == ws.len(),
        forall|i: int| 0 <= i < c1.len() ==> #[trigger] c1[i].1 > 0 && c2[i].1 > 0,
        forall|i: int| 0 <= i < c1.len() ==> frac_le(#[trigger] c1[i], c2[i]),
        forall|i: int| 0 <= i < ws.len() ==> #[trigger] ws[i] >= 0,
    ensures
        weighted_sum(c1, ws).1 > 0,
        weighted_sum(c2, ws).1 > 0,
        frac_le(weighted_sum(c1, ws), weighted_sum(c2, ws)),
    decreases c1.len(),
{
    if c1.len() > 0 {
        let k = c1.len() - 1;
        lemma_weighted_sum_monotone(c1.drop_last(), c2.drop_last(), ws.drop_last());
        let (a, b) = weighted_sum(c1.drop_last(), ws.drop_last());
        let (c, d) = weighted_sum(c2.drop_last(), ws.drop_last());
        assert(c1[k].1 > 0 && c2[k].1 > 0);
        assert(frac_le(c1[k], c2[k]));
        assert(ws[k] >= 0);
        lemma_add_frac_monotone(a, b, c, d, c1[k].0, c1[k].1, c2[k].0, c2[k].1, ws[k]);
    }
}

proof fn lemma_components_wf(f: GradeFacts)
    requires
        grade_input_wf(f),
    ensures
        components(f).len() == 5,
        weights(f).len() == 5,
        forall|i: int| 0 <= i < 5 ==> #[trigger] components(f)[i].1 > 0,
        forall|i: int| 0 <= i < 5 ==> #[trigger] weights(f)[i] >= 0,
{
    let p = profile_of(f.role);
    lemma_profile_wf(f.role);
    lemma_component_den(f.kda.num as int, f.kda.den as int, p.kda as int);
    lemma_component_den(f.kp as int, 1, p.kp as int);
    lemma_component_den(f.cs_per_min.num as int, f.cs_per_min.den as int, p.cs_per_min as int);
    lemma_component_den(f.damage_share as int, 1, p.damage_share as int);
    lemma_component_den(
        f.vision_per_min.num as int,
        f.vision_per_min.den as int,
        p.vision_per_min as int,
    );
}

proof fn lemma_bucket_monotone(a: GradeFacts, b: GradeFacts)
    requires
        score(a).1 > 0,
        score(b).1 > 0,
        frac_le(score(a), score(b)),
    ensures
        grade_rank(grade_of(a)) <= grade_rank(grade_of(b)),
{
    let (n1, d1) = score(a);
    let (n2, d2) = score(b);
    assert forall|t: int| score_at_least(a, t) implies score_at_least(b, t) by {
        assert(n2 >= t * d2) by (nonlinear_arith)
            requires
                n1 >= t * d1,
                n1 * d2 <= n2 * d1,
                d1 > 0,
                d2 > 0,
        ;
    }
}

/// Better stats never lower the grade: for one role, a game whose five
/// stats are each at least those of another game grades at least as high.
pub proof fn lemma_better_stats_never_lower_grade(a: GradeFacts, b: GradeFacts)
    requires
        grade_input_wf(a),
        grade_input_wf(b),
        a.role == b.role,
        ratio_le(a.kda, b.kda),
        a.kp <= b.kp,
        ratio_le(a.cs_per_min, b.cs_per_min),
        a.damage_share <= b.damage_share,
        ratio_le(a.vision_per_min, b.vision_per_min),
    ensures
        grade_rank(grade_of(a)) <= grade_rank(grade_of(b)),
{
    let p = profile_of(a.role);
    lemma_profile_wf(a.role);
    lemma_components_wf(a);
    lemma_components_wf(b);
    lemma_component_monotone(a.kda.num as int, a.kda.den as int, b.kda.num as int, b.kda.den as int, p.kda as int);
    lemma_component_monotone(a.kp as int, 1, b.kp as int, 1, p.kp as int);
    lemma_component_monotone(
        a.cs_per_min.num as int,
        a.cs_per_min.den as int,
        b.cs_per_min.num as int,
        b.cs_per_min.den as int,
        p.cs_per_min as int,
    );
    lemma_component_monotone(a.damage_share as int, 1, b.damage_share as int, 1, p.damage_share as int);
    lemma_component_monotone(
        a.vision_per_min.num as int,
        a.vision_per_min.den as int,
        b.vision_per_min.num as int,
        b.vision_per_min.den as int,
        p.vision_per_min as int,
    );
    let (c1, c2, ws) = (components(a), components(b), weights(a));
    assert(weights(b) == ws);
    assert forall|i: int| 0 <= i < 5 implies frac_le(#[trigger] c1[i], c2[i]) by {}
    lemma_weighted_sum_monotone(c1, c2, ws);
    lemma_bucket_monotone(a, b);
}

/// Sum of the weights.
pub open spec fn weight_total(ws: Seq<int>) -> int
    decreases ws.len(),
{
    if ws.len() == 0 {
        0
    } else {
        weight_total(ws.drop_last()) + ws.last()
    }
}

proof fn lemma_weighted_sum_of_ones(cs: Seq<(int, int)>, ws: Seq<int>)
    requires
        cs.len() == ws.len(),
        forall|i: int| 0 <= i < cs.len() ==> #[trigger] cs[i].1 > 0 && cs[i].0 == cs[i].1,
    ensures
        weighted_sum(cs, ws).1 > 0,
        weighted_sum(cs, ws).0 == weight_total(ws) * weighted_sum(cs, ws).1,
    decreases cs.len(),
{
    if cs.len() > 0 {
        let k = cs.len() - 1;
        lemma_weighted_sum_of_ones(cs.drop_last(), ws.drop_last());
        let (n, d) = weighted_sum(cs.drop_last(), ws.drop_last());
        let total = weight_total(ws.drop_last());
        let (p, q) = cs[k];
        assert(cs[k].1 > 0 && cs[k].0 == cs[k].1);
        assert(n * q + ws[k] * p * d == (total + ws[k]) * (d * q)) by (nonlinear_arith)
            requires
                n == total * d,
                p == q,
        ;
        assert(d * q > 0) by (nonlinear_arith)
            requires
                d > 0,
                q > 0,
        ;
    }
}

/// A game that meets every baseline of its role exactly scores exactly 1
/// (100 hundredths) and so grades S.
pub proof fn lemma_baseline_game_is_s(f: GradeFacts)
    requires
        grade_input_wf(f),
        at_baseline(f.kda.num as int, f.kda.den as int, profile_of(f.role).kda as int),
        at_baseline(f.kp as int, 1, profile_of(f.role).kp as int),
        at_baseline(
            f.cs_per_min.num as int,
            f.cs_per_min.den as int,
            profile_of(f.role).cs_per_min as int,
        ),
        at_baseline(f.damage_share as int, 1, profile_of(f.role).damage_share as int),
        at_baseline(
            f.vision_per_min.num as int,
            f.vision_per_min.den as int,
            profile_of(f.role).vision_per_min as int,
        ),
    ensures
        score(f).0 == 100 * score(f).1,
        grade_of(f) == Grade::S,
{
    let p = profile_of(f.role);
    lemma_profile_wf(f.role);
    lemma_component_at_baseline(f.kda.num as int, f.kda.den as int, p.kda as int);
    lemma_component_at_baseline(f.kp as int, 1, p.kp as int);
    lemma_component_at_baseline(f.cs_per_min.num as int, f.cs_per_min.den as int, p.cs_per_min as int);
    lemma_component_at_baseline(f.damage_share as int, 1, p.damage_share as int);
    lemma_component_at_baseline(
        f.vision_per_min.num as int,
        f.vision_per_min.den as int,
        p.vision_per_min as int,
    );
    let (cs, ws) = (components(f), weights(f));
    assert forall|i: int| 0 <= i < cs.len() implies #[trigger] cs[i].1 > 0 && cs[i].0 == cs[i].1 by {}
    lemma_weighted_sum_of_ones(cs, ws);
    assert(weight_total(ws) == 100) by {
        reveal_with_fuel(weight_total, 6);
    }
    let (n, d) = score(f);
    assert(!(n >= 102 * d)) by (nonlinear_arith)
        requires
            n == 100 * d,
            d > 0,
    ;
}

proof fn lemma_component_at_baseline(num: int, den: int, base: int)
    requires
        at_baseline(num, den, base),
        0 < base <= 1000,
    ensures
        component(num, den, base).1 > 0,
        component(num, den, base).0 == component(num, den, base).1,
{
    let n = if den < 0 { -num } else { num };
    let d = if den < 0 { -den } else { den };
    assert(10 * n == base * d) by (nonlinear_arith)
        requires
            10 * num == base * den,
            n == (if den < 0 { -num } else { num }),
            d == (if den < 0 { -den } else { den }),
    ;
    assert(n > 0 && 100 * n < 12 * d * base && d * base > 0) by (nonlinear_arith)
        requires
            10 * n == base * d,
            d > 0,
            base > 0,
    ;
}

} // verus!

verus! {

/// Any clamped component lies between 0 and 6/5.
proof fn lemma_component_range(num: int, den: int, base: int)
    requires
        den != 0,
        0 < base <= 1000,
    ensures
        component(num, den, base).1 > 0,
        frac_le((0, 1), component(num, den, base)),
        frac_le(component(num, den, base), (6, 5)),
{
    lemma_component_den(num, den, base);
    let n = if den < 0 { -num } else { num };
    let d = if den < 0 { -den } else { den };
    if n > 0 && !(100 * n >= 12 * d * base) {
        assert(10 * n * 5 <= 6 * (d * base)) by (nonlinear_arith)
            requires
                100 * n < 12 * d * base,
        ;
    }
}

/// The weighted sum of five components, folded in order.
proof fn lemma_weighted_sum_five(cs: Seq<(int, int)>, ws: Seq<int>)
    requires
        cs.len() == 5,
        ws.len() == 5,
    ensures
        weighted_sum(cs, ws) == {
            let (n0, d0) = (0int, 1int);
            let (n1, d1) = (n0 * cs[0].1 + ws[0] * cs[0].0 * d0, d0 * cs[0].1);
            let (n2, d2) = (n1 * cs[1].1 + ws[1] * cs[1].0 * d1, d1 * cs[1].1);
            let (n3, d3) = (n2 * cs[2].1 + ws[2] * cs[2].0 * d2, d2 * cs[2].1);
            let (n4, d4) = (n3 * cs[3].1 + ws[3] * cs[3].0 * d3, d3 * cs[3].1);
            (n4 * cs[4].1 + ws[4] * cs[4].0 * d4, d4 * cs[4].1)
        },
{
    let c4 = cs.drop_last();
    let w4 = ws.drop_last();
    let c3 = c4.drop_last();
    let w3 = w4.drop_last();
    let c2 = c3.drop_last();
    let w2 = w3.drop_last();
    let c1 = c2.drop_last();
    let w1 = w2.drop_last();
    let c0 = c1.drop_last();
    let w0 = w1.drop_last();
    assert(c0.len() == 0);
    assert(weighted_sum(c0, w0) == (0int, 1int));
    assert(c1.last() == cs[0] && w1.last() == ws[0]);
    assert(c2.last() == cs[1] && w2.last() == ws[1]);
    assert(c3.last() == cs[2] && w3.last() == ws[2]);
    assert(c4.last() == cs[3] && w4.last() == ws[3]);
    let r1 = weighted_sum(c1, w1);
    assert(r1 == (0int * cs[0].1 + ws[0] * cs[0].0 * 1int, 1int * cs[0].1));
    let r2 = weighted_sum(c2, w2);
    assert(r2 == (r1.0 * cs[1].1 + ws[1] * cs[1].0 * r1.1, r1.1 * cs[1].1));
    let r3 = weighted_sum(c3, w3);
    assert(r3 == (r2.0 * cs[2].1 + ws[2] * cs[2].0 * r2.1, r2.1 * cs[2].1));
    let r4 = weighted_sum(c4, w4);
    assert(r4 == (r3.0 * cs[3].1 + ws[3] * cs[3].0 * r3.1, r3.1 * cs[3].1));
    assert(weighted_sum(cs, ws) == (r4.0 * cs[4].1 + ws[4] * cs[4].0 * r4.1, r4.1 * cs[4].1));
}

/// A support's farm barely counts: a support who meets every other baseline
/// of the role (KDA, kill participation, damage share, vision) grades S
/// however much or little they farm, from no CS at all to far above the
/// role's baseline.
#[verifier::spinoff_prover]
pub proof fn lemma_support_farm_barely_counts(f: GradeFacts)
    requires
        grade_input_wf(f),
        f.role == "UTILITY"@,
        at_baseline(f.kda.num as int, f.kda.den as int, profile_of(f.role).kda as int),
        at_baseline(f.kp as int, 1, profile_of(f.role).kp as int),
        at_baseline(f.damage_share as int, 1, profile_of(f.role).damage_share as int),
        at_baseline(
            f.vision_per_min.num as int,
            f.vision_per_min.den as int,
            profile_of(f.role).vision_per_min as int,
        ),
    ensures
        grade_of(f) == Grade::S,
{
    reveal_strlit("UTILITY");
    reveal_strlit("TOP");
    reveal_strlit("JUNGLE");
    reveal_strlit("MIDDLE");
    reveal_strlit("BOTTOM");
    let p = profile_of(f.role);
    lemma_profile_wf(f.role);
    lemma_component_at_baseline(f.kda.num as int, f.kda.den as int, p.kda as int);
    lemma_component_at_baseline(f.kp as int, 1, p.kp as int);
    lemma_component_range(f.cs_per_min.num as int, f.cs_per_min.den as int, p.cs_per_min as int);
    lemma_component_at_baseline(f.damage_share as int, 1, p.damage_share as int);
    lemma_component_at_baseline(
        f.vision_per_min.num as int,
        f.vision_per_min.den as int,
        p.vision_per_min as int,
    );
    let cs = components(f);
    let ws = weights(f);
    assert("UTILITY"@.len() == 7 && "TOP"@.len() == 3 && "JUNGLE"@.len() == 6);
    assert("MIDDLE"@.len() == 6 && "BOTTOM"@.len() == 6);
    assert(p.w_kda == 30 && p.w_kp == 30 && p.w_cs == 5 && p.w_damage == 10 && p.w_vision == 25);
    assert(ws =~= seq![30int, 30int, 5int, 10int, 25int]);
    let lo = seq![(1int, 1int), (1int, 1int), (0int, 1int), (1int, 1int), (1int, 1int)];
    let hi = seq![(1int, 1int), (1int, 1int), (6int, 5int), (1int, 1int), (1int, 1int)];
    assert forall|i: int| 0 <= i < 5 implies #[trigger] cs[i].1 > 0 && frac_le(lo[i], cs[i])
        && frac_le(cs[i], hi[i]) by {
        if i != 2 {
            let x = cs[i].0;
            assert(1 * x <= x * 1 && x * 1 <= 1 * x) by (nonlinear_arith)
                requires
                    x > 0,
            ;
        }
    }
    lemma_weighted_sum_monotone(lo, cs, ws);
    lemma_weighted_sum_monotone(cs, hi, ws);
    assert(ws[0] == 30 && ws[1] == 30 && ws[2] == 5 && ws[3] == 10 && ws[4] == 25);
    assert(lo[0] == (1int, 1int) && lo[1] == (1int, 1int) && lo[2] == (0int, 1int));
    assert(lo[3] == (1int, 1int) && lo[4] == (1int, 1int));
    assert(hi[0] == (1int, 1int) && hi[1] == (1int, 1int) && hi[2] == (6int, 5int));
    assert(hi[3] == (1int, 1int) && hi[4] == (1int, 1int));
    lemma_weighted_sum_five(lo, ws);
    lemma_weighted_sum_five(hi, ws);
    assert(weighted_sum(lo, ws) == (95int, 1int));
    assert(weighted_sum(hi, ws) == (505int, 5int));
    let (n, d) = score(f);
    assert(n >= 90 * d && !(n >= 102 * d)) by (nonlinear_arith)
        requires
            95 * d <= n * 1,
            n * 5 <= 505 * d,
            d > 0,
    ;
}

} // verus!

//! Non-negative integers of unbounded width (little-endian 64-bit limbs),
//! enough to compare exact weighted sums of ratios.
use vstd::prelude::*;

verus! {

/// `2^64`.
pub open spec fn limb_base() -> nat {
    0x1_0000_0000_0000_0000
}

/// `2^(64 * k)`.
pub open spec fn limb_pow(k: nat) -> nat
    decreases k,
{
    if k == 0 {
        1
    } else {
        limb_pow((k - 1) as nat) * limb_base()
    }
}

/// The number held by little-endian limbs.
pub open spec fn value(s: Seq<u64>) -> nat
    decreases s.len(),
{
    if s.len() == 0 {
        0
    } else {
        s[0] as nat + limb_base() * value(s.drop_first())
    }
}

proof fn lemma_limb_pow_pos(k: nat)
    ensures
        limb_pow(k) > 0,
    decreases k,
{
    if k > 0 {
        lemma_limb_pow_pos((k - 1) as nat);
        assert(limb_pow((k - 1) as nat) * limb_base() > 0) by (nonlinear_arith)
            requires
                limb_pow((k - 1) as nat) > 0,
        ;
    }
}

proof fn lemma_limb_pow_first(k: nat)
    requires
        k > 0,
    ensures
        limb_pow(k) == limb_base() * limb_pow((k - 1) as nat),
    decreases k,
{
    if k > 1 {
        lemma_limb_pow_first((k - 1) as nat);
        assert(limb_pow(k) == limb_base() * limb_pow((k - 2) as nat) * limb_base());
        assert(limb_base() * limb_pow((k - 2) as nat) * limb_base() == limb_base() * (limb_pow(
            (k - 2) as nat,
        ) * limb_base())) by (nonlinear_arith);
    }
}

/// Appending a limb adds it at the top.
proof fn lemma_value_push(s: Seq<u64>, x: u64)
    ensures
        value(s.push(x)) == value(s) + x as nat * limb_pow(s.len()),
    decreases s.len(),
{
    if s.len() == 0 {
        assert(s.push(x).drop_first() =~= Seq::<u64>::empty());
        assert(value(Seq::<u64>::empty()) == 0);
        assert(value(s) == 0);
        assert(limb_pow(0) == 1);
        assert(s.push(x)[0] == x);
        assert(value(s.push(x)) == x as nat + limb_base() * value(s.push(x).drop_first()));
        assert(value(s.push(x)) == x as nat);
    } else {
        assert(s.push(x).drop_first() =~= s.drop_first().push(x));
        assert(s.push(x)[0] == s[0]);
        lemma_value_push(s.drop_first(), x);
        lemma_limb_pow_first(s.len());
        let v = value(s.drop_first());
        let p = limb_pow((s.len() - 1) as nat);
        assert(limb_base() * (v + x as nat * p) == limb_base() * v + x as nat * (limb_base() * p))
            by (nonlinear_arith);
        assert(value(s.push(x)) == s[0] as nat + limb_base() * value(s.drop_first().push(x)));
        assert(value(s) == s[0] as nat + limb_base() * v);
    }
}

/// A number of `n` limbs is below `2^(64 n)`.
proof fn lemma_value_bound(s: Seq<u64>)
    ensures
        value(s) < limb_pow(s.len()),
    decreases s.len(),
{
    if s.len() > 0 {
        lemma_value_bound(s.drop_first());
        lemma_limb_pow_first(s.len());
        let v = value(s.drop_first());
        let p = limb_pow((s.len() - 1) as nat);
        assert(s[0] as nat + limb_base() * v < limb_base() * p) by (nonlinear_arith)
            requires
                v < p,
                s[0] < limb_base(),
        ;
    }
}

/// Splitting off the low `i` limbs.
proof fn lemma_value_split(s: Seq<u64>, i: int)
    requires
        0 <= i <= s.len(),
    ensures
        value(s) == value(s.take(i)) + limb_pow(i as nat) * value(s.skip(i)),
    decreases i,
{
    if i == 0 {
        assert(s.skip(0) =~= s);
        assert(value(s.take(0)) == 0);
        assert(limb_pow(0) == 1);
    } else {
        lemma_value_split(s.drop_first(), i - 1);
        assert(s.drop_first().take(i - 1) =~= s.take(i).drop_first());
        assert(s.drop_first().skip(i - 1) =~= s.skip(i));
        assert(s.take(i)[0] == s[0]);
        lemma_limb_pow_first(i as nat);
        let a = value(s.take(i).drop_first());
        let b = value(s.skip(i));
        let p = limb_pow((i - 1) as nat);
        assert(limb_base() * (a + p * b) == limb_base() * a + (limb_base() * p) * b)
            by (nonlinear_arith);
        assert(value(s.take(i)) == s[0] as nat + limb_base() * a);
        assert(value(s) == s[0] as nat + limb_base() * value(s.drop_first()));
        assert(value(s.drop_first()) == a + p * b);
    }
}

/// Appending zero limbs keeps the number.
proof fn lemma_value_push_zero(s: Seq<u64>)
    ensures
        value(s.push(0u64)) == value(s),
{
    lemma_value_push(s, 0u64);
}

/// `a` padded with zero limbs to at least `n` limbs.
pub fn padded(a: &Vec<u64>, n: usize) -> (r: Vec<u64>)
    ensures
        value(r@) == value(a@),
        r@.len() == if a@.len() >= n {
            a@.len()
        } else {
            n as nat
        },
{
    let mut r = a.clone();
    assert(r@ == a@);
    while r.len() < n
        invariant
            value(r@) == value(a@),
            r@.len() >= a@.len(),
            r@.len() <= if a@.len() >= n {
                a@.len()
            } else {
                n as nat
            },
        decreases n - r.len(),
    {
        proof {
            lemma_value_push_zero(r@);
        }
        r.push(0);
    }
    r
}

/// The number `x`.
pub fn from_u128(x: u128) -> (r: Vec<u64>)
    ensures
        value(r@) == x,
{
    let lo = (x % 0x1_0000_0000_0000_0000) as u64;
    let hi = (x / 0x1_0000_0000_0000_0000) as u64;
    let mut r: Vec<u64> = Vec::new();
    let ghost e = r@;
    proof {
        lemma_value_push(r@, lo);
        assert(e.push(lo) =~= seq![lo]);
        assert(seq![lo].drop_first() =~= Seq::<u64>::empty());
        assert(value(seq![lo]) == lo as nat + limb_base() * value(Seq::<u64>::empty()));
        assert(limb_pow(0) == 1);
        assert(value(r@) == 0);
        assert(x == hi as nat * limb_base() + lo as nat) by (nonlinear_arith)
            requires
                lo == x % 0x1_0000_0000_0000_0000,
                hi == x / 0x1_0000_0000_0000_0000,
                limb_base() == 0x1_0000_0000_0000_0000,
        ;
    }
    r.push(lo);
    assert(r@ == e.push(lo));
    assert(value(r@) == lo);
    proof {
        lemma_value_push(r@, hi);
        assert(limb_pow(1) == limb_base()) by {
            assert(limb_pow(1) == limb_pow(0) * limb_base());
        }
    }
    r.push(hi);
    assert(value(r@) == lo as nat + hi as nat * limb_base());
    r
}

/// `a * m`.
pub fn mul_u64(a: &Vec<u64>, m: u64) -> (r: Vec<u64>)
    ensures
        value(r@) == value(a@) * m,
{
    let mut r: Vec<u64> = Vec::new();
    let mut carry: u64 = 0;
    let mut i: usize = 0;
    assert(value(r@) == 0);
    assert(value(a@.take(0)) == 0);
    while i < a.len()
        invariant
            i <= a.len(),
            r@.len() == i,
            value(r@) + carry as nat * limb_pow(i as nat) == value(a@.take(i as int)) * m,
        decreases a.len() - i,
    {
        proof {
            assert((a[i as int] as u128) * (m as u128) <= 0xffff_ffff_ffff_fffe_0000_0000_0000_0001)
                by (nonlinear_arith);
        }
        let t: u128 = (a[i] as u128) * (m as u128) + carry as u128;
        let lo = (t % 0x1_0000_0000_0000_0000) as u64;
        let hi = (t / 0x1_0000_0000_0000_0000) as u64;
        proof {
            let p = limb_pow(i as nat);
            lemma_value_push(r@, lo);
            lemma_value_push(a@.take(i as int), a[i as int]);
            assert(a@.take(i + 1) =~= a@.take(i as int).push(a[i as int]));
            assert(limb_pow((i + 1) as nat) == p * limb_base());
            assert(t == lo as nat + hi as nat * limb_base());
            let va = value(a@.take(i as int));
            let vr = value(r@);
            assert(vr + lo as nat * p + hi as nat * (p * limb_base()) == (va + a[i as int] as nat
                * p) * m) by (nonlinear_arith)
                requires
                    vr + carry as nat * p == va * m,
                    t == lo as nat + hi as nat * limb_base(),
                    t == a[i as int] as nat * m as nat + carry as nat,
            ;
        }
        r.push(lo);
        carry = hi;
        i += 1;
    }
    proof {
        assert(a@.take(a.len() as int) =~= a@);
        lemma_value_push(r@, carry);
    }
    r.push(carry);
    r
}

/// `a + b`.
pub fn add(a: &Vec<u64>, b: &Vec<u64>) -> (r: Vec<u64>)
    ensures
        value(r@) == value(a@) + value(b@),
{
    let n = if a.len() >= b.len() {
        a.len()
    } else {
        b.len()
    };
    let x = padded(a, n);
    let y = padded(b, n);
    let mut r: Vec<u64> = Vec::new();
    let mut carry: u64 = 0;
    let mut i: usize = 0;
    assert(value(r@) == 0);
    assert(value(x@.take(0)) == 0);
    assert(value(y@.take(0)) == 0);
    while i < n
        invariant
            x@.len() == n,
            y@.len() == n,
            i <= n,
            r@.len() == i,
            carry <= 1,
            value(r@) + carry as nat * limb_pow(i as nat) == value(x@.take(i as int)) + value(
                y@.take(i as int),
            ),
        decreases n - i,
    {
        let t: u128 = x[i] as u128 + y[i] as u128 + carry as u128;
        let lo = (t % 0x1_0000_0000_0000_0000) as u64;
        let hi = (t / 0x1_0000_0000_0000_0000) as u64;
        proof {
            let p = limb_pow(i as nat);
            lemma_value_push(r@, lo);
            lemma_value_push(x@.take(i as int), x[i as int]);
            lemma_value_push(y@.take(i as int), y[i as int]);
            assert(x@.take(i + 1) =~= x@.take(i as int).push(x[i as int]));
            assert(y@.take(i + 1) =~= y@.take(i as int).push(y[i as int]));
            assert(limb_pow((i + 1) as nat) == p * limb_base());
            assert(t == lo as nat + hi as nat * limb_base());
            assert(lo as nat * p + hi as nat * (p * limb_base()) == (x[i as int] as nat + y[i as int] as nat + carry as nat) * p)
                by (nonlinear_arith)
                requires
                    t == lo as nat + hi as nat * limb_base(),
                    t == x[i as int] as nat + y[i as int] as nat + carry as nat,
            ;
            assert((x[i as int] as nat + y[i as int] as nat + carry as nat) * p == x[i as int] as nat * p + y[i as int] as nat * p + carry as nat * p) by (nonlinear_arith);
        }
        r.push(lo);
        carry = hi;
        i += 1;
    }
    proof {
        assert(x@.take(n as int) =~= x@);
        assert(y@.take(n as int) =~= y@);
        lemma_value_push(r@, carry);
    }
    r.push(carry);
    r
}

/// `value(a) >= value(b)`.
pub fn ge(a: &Vec<u64>, b: &Vec<u64>) -> (r: bool)
    ensures
        r == (value(a@) >= value(b@)),
{
    let n = if a.len() >= b.len() {
        a.len()
    } else {
        b.len()
    };
    let x = padded(a, n);
    let y = padded(b, n);
    let mut i: usize = n;
    while i > 0
        invariant
            x@.len() == n,
            y@.len() == n,
            i <= n,
            value(x@) == value(a@),
            value(y@) == value(b@),
            x@.skip(i as int) == y@.skip(i as int),
        decreases i,
    {
        let j = i - 1;
        if x[j] != y[j] {
            proof {
                lemma_value_split(x@, j as int);
                lemma_value_split(y@, j as int);
                lemma_value_bound(x@.take(j as int));
                lemma_value_bound(y@.take(j as int));
                assert(x@.skip(j as int).drop_first() =~= x@.skip(i as int));
                assert(y@.skip(j as int).drop_first() =~= y@.skip(i as int));
                let h = value(x@.skip(i as int));
                let p = limb_pow(j as nat);
                let lx = value(x@.take(j as int));
                let ly = value(y@.take(j as int));
                assert(value(x@.skip(j as int)) == x[j as int] as nat + limb_base() * h);
                assert(value(y@.skip(j as int)) == y[j as int] as nat + limb_base() * h);
                if x[j as int] > y[j as int] {
                    assert(lx + p * (x[j as int] as nat + limb_base() * h) > ly + p * (y[j as int] as nat + limb_base() * h))
                        by (nonlinear_arith)
                        requires
                            x[j as int] > y[j as int],
                            ly < p,
                    ;
                } else {
                    assert(lx + p * (x[j as int] as nat + limb_base() * h) < ly + p * (y[j as int] as nat + limb_base() * h))
                        by (nonlinear_arith)
                        requires
                            x[j as int] < y[j as int],
                            lx < p,
                    ;
                }
            }
            return x[j] > y[j];
        }
        proof {
            assert(x@.skip(j as int) =~= seq![x[j as int]] + x@.skip(i as int));
            assert(y@.skip(j as int) =~= seq![y[j as int]] + y@.skip(i as int));
        }
        i = j;
    }
    proof {
        assert(x@.skip(0) =~= x@);
        assert(y@.skip(0) =~= y@);
    }
    true
}

} // verus!

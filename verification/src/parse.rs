//! Decimal integer parsing with the rules of std's `str::parse` for integers:
//! an optional `+` or `-`, then one or more ASCII digits, within the type's range.
use vstd::prelude::*;

use crate::text::chars_of;

verus! {

/// Whether `c` is an ASCII digit.
pub open spec fn is_digit(c: char) -> bool {
    '0' <= c && c <= '9'
}

/// Value of a run of ASCII digits.
pub open spec fn digits_value(s: Seq<char>) -> int
    decreases s.len(),
{
    if s.len() == 0 {
        0
    } else {
        digits_value(s.drop_last()) * 10 + (s.last() as int - '0' as int)
    }
}

/// All characters of `s` are ASCII digits.
pub open spec fn all_digits(s: Seq<char>) -> bool {
    forall|i: int| 0 <= i < s.len() ==> is_digit(#[trigger] s[i])
}

/// The integer `s` denotes when it lies in `[min, max]`.
pub open spec fn parse_int(s: Seq<char>, min: int, max: int) -> Option<int> {
    let signed = s.len() > 0 && (s[0] == '+' || s[0] == '-');
    let neg = s.len() > 0 && s[0] == '-';
    let ds = if signed {
        s.drop_first()
    } else {
        s
    };
    if ds.len() == 0 || !all_digits(ds) {
        None
    } else {
        let v = if neg {
            -digits_value(ds)
        } else {
            digits_value(ds)
        };
        if min <= v <= max {
            Some(v)
        } else {
            None
        }
    }
}

proof fn lemma_digits_value_nonneg(s: Seq<char>)
    requires
        forall|i: int| 0 <= i < s.len() ==> is_digit(#[trigger] s[i]),
    ensures
        digits_value(s) >= 0,
    decreases s.len(),
{
    if s.len() > 0 {
        assert(forall|i: int| 0 <= i < s.drop_last().len() ==> is_digit(#[trigger] s.drop_last()[i])
            ) by {
            assert(forall|i: int| 0 <= i < s.drop_last().len() ==> s.drop_last()[i] == s[i]);
        }
        lemma_digits_value_nonneg(s.drop_last());
        assert(is_digit(s[s.len() - 1]));
    }
}

proof fn lemma_digits_value_grows(s: Seq<char>, i: int)
    requires
        forall|k: int| 0 <= k < s.len() ==> is_digit(#[trigger] s[k]),
        0 <= i <= s.len(),
    ensures
        digits_value(s.take(i)) <= digits_value(s),
    decreases s.len() - i,
{
    if i == s.len() {
        assert(s.take(i) =~= s);
    } else {
        lemma_digits_value_grows(s, i + 1);
        assert(s.take(i + 1).drop_last() =~= s.take(i));
        assert(s.take(i + 1).last() == s[i]);
        assert(forall|k: int| 0 <= k < s.take(i).len() ==> is_digit(#[trigger] s.take(i)[k])) by {
            assert(forall|k: int| 0 <= k < s.take(i).len() ==> s.take(i)[k] == s[k]);
        }
        lemma_digits_value_nonneg(s.take(i));
        assert(is_digit(s[i]));
        assert(digits_value(s.take(i + 1)) == digits_value(s.take(i)) * 10 + (s[i] as int - '0' as int));
    }
}

fn digits_upto(cs: &Vec<char>, start: usize, bound: i128) -> (r: Option<i128>)
    requires
        start <= cs.len(),
        0 <= bound <= 0x1_0000_0000_0000_0000,
    ensures
        match r {
            Some(v) => all_digits(cs@.skip(start as int)) && v == digits_value(cs@.skip(start as int))
                && 0 <= v <= bound,
            None => !all_digits(cs@.skip(start as int)) || digits_value(cs@.skip(start as int))
                > bound,
        },
{
    let ghost ds = cs@.skip(start as int);
    let mut acc: i128 = 0;
    let mut i: usize = start;
    while i < cs.len()
        invariant
            start <= i <= cs.len(),
            ds == cs@.skip(start as int),
            0 <= bound <= 0x1_0000_0000_0000_0000,
            forall|k: int| start <= k < i ==> is_digit(#[trigger] cs@[k]),
            acc == digits_value(ds.take(i - start)),
            0 <= acc <= bound,
        decreases cs.len() - i,
    {
        let c = cs[i];
        if !('0' <= c && c <= '9') {
            assert(ds[i - start] == c);
            assert(!is_digit(ds[i - start]));
            return None;
        }
        let d = (c as u32 - '0' as u32) as i128;
        assert(ds.take(i + 1 - start).drop_last() =~= ds.take(i - start));
        assert(ds.take(i + 1 - start).last() == c);
        acc = acc * 10 + d;
        i += 1;
        assert(acc == digits_value(ds.take(i - start)));
        if acc > bound {
            proof {
                if all_digits(ds) {
                    lemma_digits_value_grows(ds, i - start);
                }
            }
            return None;
        }
    }
    assert(ds.take(cs.len() - start) =~= ds);
    assert(all_digits(ds)) by {
        assert forall|k: int| 0 <= k < ds.len() implies is_digit(#[trigger] ds[k]) by {
            assert(ds[k] == cs@[k + start]);
        }
    }
    Some(acc)
}

/// Parse a decimal integer in `[min, max]` (a 64-bit range at most).
pub fn parse_int_in(s: &str, min: i64, max: i64) -> (r: Option<i64>)
    requires
        min <= 0 <= max,
    ensures
        match parse_int(s@, min as int, max as int) {
            Some(v) => r == Some(v as i64),
            None => r is None,
        },
{
    let cs = chars_of(s);
    let ghost sv = s@;
    let signed = cs.len() > 0 && (cs[0] == '+' || cs[0] == '-');
    let neg = cs.len() > 0 && cs[0] == '-';
    let start: usize = if signed {
        1
    } else {
        0
    };
    let ghost ds = if signed {
        sv.drop_first()
    } else {
        sv
    };
    assert(ds =~= cs@.skip(start as int));
    if start >= cs.len() {
        return None;
    }
    let bound: i128 = if neg {
        0 - (min as i128)
    } else {
        max as i128
    };
    assert(ds.len() > 0);
    match digits_upto(&cs, start, bound) {
        None => {
            assert(ds == cs@.skip(start as int));
            None
        },
        Some(v) => {
            if neg {
                Some((0 - v) as i64)
            } else {
                Some(v as i64)
            }
        },
    }
}

/// The unsigned integer `s` denotes (an optional `+`, then decimal digits)
/// when it is at most `max`, as Rust's unsigned `from_str` reads it.
pub open spec fn parse_uint(s: Seq<char>, max: int) -> Option<int> {
    let ds = if s.len() > 0 && s[0] == '+' {
        s.drop_first()
    } else {
        s
    };
    if ds.len() == 0 || !all_digits(ds) || digits_value(ds) > max {
        None
    } else {
        Some(digits_value(ds))
    }
}

/// Parse an unsigned decimal integer of at most `max`.
pub fn parse_uint_in(s: &str, max: u64) -> (r: Option<u64>)
    ensures
        match parse_uint(s@, max as int) {
            Some(v) => r == Some(v as u64) && 0 <= v <= max,
            None => r is None,
        },
{
    let cs = chars_of(s);
    let ghost sv = s@;
    let start: usize = if cs.len() > 0 && cs[0] == '+' {
        1
    } else {
        0
    };
    let ghost ds = if sv.len() > 0 && sv[0] == '+' {
        sv.drop_first()
    } else {
        sv
    };
    assert(ds =~= cs@.skip(start as int));
    if start >= cs.len() {
        return None;
    }
    match digits_upto(&cs, start, max as i128) {
        None => None,
        Some(v) => Some(v as u64),
    }
}

} // verus!

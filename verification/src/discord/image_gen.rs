//! What a match card is built from, and the data URIs of its inlined images.
use vstd::prelude::*;

use base64::Engine;

use crate::db::models::{Player, RankInfo};
use crate::riot::types::{InfoDto, ParticipantDto};
use crate::text::{push_char, push_str, string_of};

verus! {

/// Champion mastery of the played champion, for the non-ranked footer.
#[derive(Debug, Clone, Copy)]
pub struct MasteryInfo {
    pub level: i32,
    pub points: i32,
}

/// Everything a match card is built from.
pub struct MatchImageContext<'a> {
    pub player: &'a Player,
    pub participant: &'a ParticipantDto,
    pub match_info: &'a InfoDto,
    pub old_rank: Option<&'a RankInfo>,
    pub new_rank: Option<&'a RankInfo>,
    /// Recent results (oldest to newest) for the ranked streak bar; empty
    /// hides the bar.
    pub streak: Vec<bool>,
    /// Champion mastery for the non-ranked footer; `None` omits it.
    pub mastery: Option<MasteryInfo>,
}

/// The character of a 6-bit value in the standard base64 alphabet
/// (`A`-`Z`, `a`-`z`, `0`-`9`, `+`, `/`).
pub open spec fn base64_digit(v: int) -> char {
    if v < 26 {
        (65 + v) as char
    } else if v < 52 {
        (97 + v - 26) as char
    } else if v < 62 {
        (48 + v - 52) as char
    } else if v == 62 {
        '+'
    } else {
        '/'
    }
}

/// Standard base64 (RFC 4648 alphabet, with `=` padding) of some bytes:
/// each group of three bytes becomes four characters; a last group of one
/// or two bytes is padded with `==` or `=`.
pub open spec fn base64_standard(b: Seq<u8>) -> Seq<char>
    decreases b.len(),
{
    if b.len() == 0 {
        Seq::empty()
    } else if b.len() == 1 {
        seq![base64_digit((b[0] as int) / 4), base64_digit(((b[0] as int) % 4) * 16), '=', '=']
    } else if b.len() == 2 {
        seq![
            base64_digit((b[0] as int) / 4),
            base64_digit(((b[0] as int) % 4) * 16 + (b[1] as int) / 16),
            base64_digit(((b[1] as int) % 16) * 4),
            '=',
        ]
    } else {
        seq![
            base64_digit((b[0] as int) / 4),
            base64_digit(((b[0] as int) % 4) * 16 + (b[1] as int) / 16),
            base64_digit(((b[1] as int) % 16) * 4 + (b[2] as int) / 64),
            base64_digit((b[2] as int) % 64),
        ] + base64_standard(b.subrange(3, b.len() as int))
    }
}

/// `base64::engine::general_purpose::STANDARD.encode`: the padded standard
/// base64 text of `bytes` ([`base64_standard`]). It panics only when the
/// encoded length overflows `usize`, which `requires` leaves out.
#[verifier::external_body]
fn encode_base64(bytes: &[u8]) -> (r: String)
    requires
        (bytes@.len() / 3) * 4 + 4 <= usize::MAX,
    ensures
        r@ == base64_standard(bytes@),
{
    base64::engine::general_purpose::STANDARD.encode(bytes)
}

/// The bytes `u8::is_ascii_whitespace` accepts: space, tab, line feed, form
/// feed and carriage return.
pub open spec fn ascii_ws(b: u8) -> bool {
    b == 0x20 || b == 0x09 || b == 0x0a || b == 0x0c || b == 0x0d
}

/// The first byte that is not ASCII whitespace is `<` (an XML prolog or a
/// bare `<svg>`).
pub open spec fn svg_like(b: Seq<u8>) -> bool {
    exists|i: int|
        0 <= i < b.len() && b[i] == 0x3c && forall|j: int| 0 <= j < i ==> #[trigger] ascii_ws(b[j])
}

/// MIME type sniffed from the magic bytes: JPEG (`FF D8 FF`), SVG, else PNG.
pub open spec fn mime_of(b: Seq<u8>) -> Seq<char> {
    if b.len() >= 3 && b[0] == 0xff && b[1] == 0xd8 && b[2] == 0xff {
        "image/jpeg"@
    } else if svg_like(b) {
        "image/svg+xml"@
    } else {
        "image/png"@
    }
}

/// Whether `bytes` looks like an SVG document.
pub fn is_svg(bytes: &[u8]) -> (r: bool)
    ensures
        r == svg_like(bytes@),
{
    let mut i: usize = 0;
    while i < bytes.len()
        invariant
            i <= bytes.len(),
            forall|j: int| 0 <= j < i ==> #[trigger] ascii_ws(bytes@[j]),
        decreases bytes.len() - i,
    {
        let b = bytes[i];
        if !(b == 0x20 || b == 0x09 || b == 0x0a || b == 0x0c || b == 0x0d) {
            if b == 0x3c {
                assert(bytes@[i as int] == 0x3c);
                return true;
            } else {
                assert(!ascii_ws(bytes@[i as int]));
                assert forall|k: int|
                    0 <= k < bytes@.len() && bytes@[k] == 0x3c implies !(forall|j: int|
                    0 <= j < k ==> #[trigger] ascii_ws(bytes@[j])) by {
                    if k < i {
                        assert(ascii_ws(bytes@[k]));
                    } else if k > i {
                        assert(!ascii_ws(bytes@[i as int]));
                    }
                }
                return false;
            }
        }
        i += 1;
    }
    assert forall|k: int| 0 <= k < bytes@.len() && bytes@[k] == 0x3c implies false by {
        assert(ascii_ws(bytes@[k]));
    }
    false
}

/// `data:` URI of image bytes, with the MIME type sniffed from them.
pub fn to_data_uri(bytes: &[u8]) -> (r: String)
    requires
        (bytes@.len() / 3) * 4 + 4 <= usize::MAX,
    ensures
        r@ == "data:"@ + mime_of(bytes@) + ";base64,"@ + base64_standard(bytes@),
{
    let mime = if bytes.len() >= 3 && bytes[0] == 0xff && bytes[1] == 0xd8 && bytes[2] == 0xff {
        "image/jpeg"
    } else if is_svg(bytes) {
        "image/svg+xml"
    } else {
        "image/png"
    };
    let b64 = encode_base64(bytes);
    let mut r = string_of("data:");
    push_str(&mut r, mime);
    push_str(&mut r, ";base64,");
    push_str(&mut r, b64.as_str());
    r
}

/// Polynomial hash of a URL's bytes (`h = h * 31 + b`, wrapping at 64 bits).
pub open spec fn url_hash(bytes: Seq<u8>) -> u64
    decreases bytes.len(),
{
    if bytes.len() == 0 {
        0
    } else {
        vstd::wrapping::u64_specs::wrapping_add(
            vstd::wrapping::u64_specs::wrapping_mul(url_hash(bytes.drop_last()), 31),
            bytes.last() as u64,
        )
    }
}

/// A lower-case hexadecimal digit.
pub open spec fn hex_lower(d: int) -> char {
    if d < 10 {
        ((d + 48) as u32) as char
    } else {
        ((d + 87) as u32) as char
    }
}

/// The `n` low hexadecimal digits of `v`, most significant first.
pub open spec fn hex_digits(v: nat, n: nat) -> Seq<char>
    decreases n,
{
    if n == 0 {
        Seq::empty()
    } else {
        hex_digits(v / 16, (n - 1) as nat).push(hex_lower((v % 16) as int))
    }
}

fn push_hex_digits(s: &mut String, v: u64, n: u8)
    ensures
        final(s)@ == old(s)@ + hex_digits(v as nat, n as nat),
    decreases n,
{
    if n > 0 {
        push_hex_digits(s, v / 16, n - 1);
        let d = v % 16;
        let c = match d {
            0 => '0',
            1 => '1',
            2 => '2',
            3 => '3',
            4 => '4',
            5 => '5',
            6 => '6',
            7 => '7',
            8 => '8',
            9 => '9',
            10 => 'a',
            11 => 'b',
            12 => 'c',
            13 => 'd',
            14 => 'e',
            _ => 'f',
        };
        assert(c == hex_lower(d as int));
        push_char(s, c);
        assert(s@ =~= old(s)@ + hex_digits(v as nat, n as nat));
    }
}

/// Cache key (and file name) of an image URL: its 64-bit hash as sixteen
/// lower-case hexadecimal digits.
pub fn cache_key(url: &str) -> (r: String)
    ensures
        r@ == hex_digits(url_hash(vstd::string::StringSliceAdditionalSpecFns::spec_bytes(url)) as nat, 16),
{
    let bytes = url.as_bytes();
    let mut h: u64 = 0;
    let mut i: usize = 0;
    while i < bytes.len()
        invariant
            i <= bytes@.len(),
            bytes@ == vstd::string::StringSliceAdditionalSpecFns::spec_bytes(url),
            h == url_hash(bytes@.take(i as int)),
        decreases bytes.len() - i,
    {
        assert(bytes@.take(i + 1).drop_last() =~= bytes@.take(i as int));
        h = h.wrapping_mul(31).wrapping_add(bytes[i] as u64);
        i += 1;
    }
    assert(bytes@.take(bytes@.len() as int) =~= bytes@);
    let mut r = String::new();
    push_hex_digits(&mut r, h, 16);
    r
}

// ----------------------------------------------------------------------------
// Image cache policy
// ----------------------------------------------------------------------------

/// Whether a cache entry of the given age is stale: older than `ttl`, or of
/// unknown age (a timestamp in the future). Ages are in nanoseconds.
pub fn is_expired(age: Option<u128>, ttl: u128) -> (r: bool)
    ensures
        r == match age {
            Some(a) => a > ttl,
            None => true,
        },
{
    match age {
        Some(a) => a > ttl,
        None => true,
    }
}

/// Entry `a` was created before entry `b` (equal times keep index order).
pub open spec fn older(created: Seq<u64>, a: usize, b: usize) -> bool {
    ||| created[a as int] < created[b as int]
    ||| created[a as int] == created[b as int] && a < b
}

/// `order` lists every entry index once, oldest first.
pub open spec fn is_oldest_first(created: Seq<u64>, order: Seq<usize>) -> bool {
    &&& order.len() == created.len()
    &&& forall|i: int| 0 <= i < order.len() ==> #[trigger] order[i] < created.len()
    &&& forall|i: int, j: int|
        0 <= i < j < order.len() ==> older(created, #[trigger] order[i], #[trigger] order[j])
}

/// The cache entries, given by creation time, from oldest to newest (a
/// stable sort: entries created at the same time keep their order).
pub fn oldest_first(created: &Vec<u64>) -> (r: Vec<usize>)
    ensures
        is_oldest_first(created@, r@),
{
    let mut r: Vec<usize> = Vec::new();
    let mut i: usize = 0;
    while i < created.len()
        invariant
            i <= created.len(),
            r.len() == i,
            forall|k: int| 0 <= k < r.len() ==> #[trigger] r@[k] < i,
            forall|k: int, l: int|
                0 <= k < l < r.len() ==> older(created@, #[trigger] r@[k], #[trigger] r@[l]),
        decreases created.len() - i,
    {
        let mut p: usize = 0;
        while p < r.len() && created[r[p]] <= created[i]
            invariant
                i < created.len(),
                p <= r.len(),
                r.len() == i,
                forall|k: int| 0 <= k < r.len() ==> #[trigger] r@[k] < i,
                forall|k: int| 0 <= k < p ==> older(created@, #[trigger] r@[k], i),
            decreases r.len() - p,
        {
            p += 1;
        }
        proof {
            if p < r.len() {
                assert(created@[i as int] < created@[r@[p as int] as int]);
                assert forall|k: int| p <= k < r.len() implies older(created@, i, #[trigger] r@[k]) by {
                    if k > p {
                        assert(older(created@, r@[p as int], r@[k]));
                    }
                }
            }
        }
        let ghost before = r@;
        r.insert(p, i);
        proof {
            assert forall|k: int| 0 <= k < r.len() implies #[trigger] r@[k] < i + 1 by {
                if k < p {
                    assert(r@[k] == before[k]);
                } else if k > p {
                    assert(r@[k] == before[k - 1]);
                }
            }
            assert forall|k: int, l: int|
                0 <= k < l < r.len() implies older(created@, #[trigger] r@[k], #[trigger] r@[l]) by {
                if k < p {
                    assert(r@[k] == before[k]);
                    if l < p {
                        assert(r@[l] == before[l]);
                    } else if l > p {
                        assert(r@[l] == before[l - 1]);
                        assert(older(created@, before[k], before[l - 1]));
                    }
                } else if k == p {
                    assert(r@[l] == before[l - 1]);
                } else {
                    assert(r@[k] == before[k - 1]);
                    assert(r@[l] == before[l - 1]);
                }
            }
        }
        i += 1;
    }
    r
}

/// Total size of the cache entries.
pub open spec fn total_size(sizes: Seq<u64>) -> int
    decreases sizes.len(),
{
    if sizes.len() == 0 {
        0
    } else {
        total_size(sizes.drop_last()) + sizes.last()
    }
}

/// Size of the first `k` entries of `order`.
pub open spec fn prefix_size(order: Seq<usize>, sizes: Seq<u64>, k: int) -> int
    decreases k,
{
    if k <= 0 {
        0
    } else {
        prefix_size(order, sizes, k - 1) + sizes[order[k - 1] as int]
    }
}

/// Bytes to free once the cache is over `max` bytes: down to 80% of `max`.
pub open spec fn bytes_to_free(sizes: Seq<u64>, max: u64) -> int {
    total_size(sizes) - max * 80 / 100
}

/// How many entries of `order` (oldest first) to evict: none while the
/// cache holds at most `max` bytes; otherwise the fewest whose sizes add up
/// to [`bytes_to_free`], or all of them when even that is not enough.
pub fn eviction_count(order: &Vec<usize>, sizes: &Vec<u64>, max: u64) -> (k: usize)
    requires
        forall|i: int| 0 <= i < order.len() ==> #[trigger] order@[i] < sizes.len(),
    ensures
        k <= order.len(),
        total_size(sizes@) <= max ==> k == 0,
        total_size(sizes@) > max ==> {
            &&& forall|j: int|
                0 <= j < k ==> #[trigger] prefix_size(order@, sizes@, j) < bytes_to_free(
                    sizes@,
                    max,
                )
            &&& k == order.len() || prefix_size(order@, sizes@, k as int) >= bytes_to_free(
                sizes@,
                max,
            )
        },
{
    let mut total: u128 = 0;
    let mut i: usize = 0;
    while i < sizes.len()
        invariant
            i <= sizes.len(),
            total == total_size(sizes@.take(i as int)),
            total <= i * 0xffff_ffff_ffff_ffffu128,
        decreases sizes.len() - i,
    {
        assert(sizes@.take(i + 1).drop_last() =~= sizes@.take(i as int));
        assert((i + 1) * 0xffff_ffff_ffff_ffffu128 == i * 0xffff_ffff_ffff_ffffu128
            + 0xffff_ffff_ffff_ffffu128) by (nonlinear_arith);
        total = total + sizes[i] as u128;
        i += 1;
    }
    assert(sizes@.take(sizes.len() as int) =~= sizes@);
    assert(total <= 0xffff_ffff_ffff_ffffu128 * 0xffff_ffff_ffff_ffffu128) by (nonlinear_arith)
        requires
            total <= i * 0xffff_ffff_ffff_ffffu128,
            i <= 0xffff_ffff_ffff_ffffu128,
    ;
    if total <= max as u128 {
        return 0;
    }
    let target: u128 = total - (max as u128 * 80 / 100);
    let mut freed: u128 = 0;
    let mut k: usize = 0;
    while k < order.len() && freed < target
        invariant
            k <= order.len(),
            forall|i: int| 0 <= i < order.len() ==> #[trigger] order@[i] < sizes.len(),
            target == bytes_to_free(sizes@, max),
            target <= 0xffff_ffff_ffff_ffffu128 * 0xffff_ffff_ffff_ffffu128,
            freed == prefix_size(order@, sizes@, k as int),
            freed <= target + 0xffff_ffff_ffff_ffffu128,
            forall|j: int| 0 <= j < k ==> #[trigger] prefix_size(order@, sizes@, j) < target,
        decreases order.len() - k,
    {
        freed = freed + sizes[order[k]] as u128;
        k += 1;
    }
    k
}

} // verus!

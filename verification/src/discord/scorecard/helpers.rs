//! Formatting and asset-URL helpers of the match card.
use vstd::prelude::*;

use crate::db::models::RankInfo;
use crate::discord::ddragon::ddragon_cdn;
use crate::float::{f64_int_div, f64_int_div_exec};
use crate::numfmt::{decimal, fixed, push_decimal, push_fixed, push_signed, signed_decimal};
use crate::text::{
    chars_of, is_whitespace, is_whitespace_char, push_char, push_str, str_eq, string_of,
    to_lowercase, to_uppercase, unicode_lowercase, unicode_uppercase,
};

verus! {

// ----------------------------------------------------------------------------
// HTML escaping
// ----------------------------------------------------------------------------

/// The markup for one character: the five HTML-significant characters
/// become entities, every other character stays.
pub open spec fn escape_char(c: char) -> Seq<char> {
    if c == '&' {
        "&amp;"@
    } else if c == '<' {
        "&lt;"@
    } else if c == '>' {
        "&gt;"@
    } else if c == '"' {
        "&quot;"@
    } else if c == '\'' {
        "&#39;"@
    } else {
        seq![c]
    }
}

/// `s` with every character escaped.
pub open spec fn escaped(s: Seq<char>) -> Seq<char>
    decreases s.len(),
{
    if s.len() == 0 {
        Seq::empty()
    } else {
        escaped(s.drop_last()) + escape_char(s.last())
    }
}

/// Appends `input` with the five HTML-significant characters escaped.
pub fn push_escaped(s: &mut String, input: &str)
    ensures
        final(s)@ == old(s)@ + escaped(input@),
{
    let cs = chars_of(input);
    let ghost start = s@;
    let mut i: usize = 0;
    assert(cs@.take(0) =~= Seq::<char>::empty());
    assert(start + escaped(Seq::<char>::empty()) =~= start);
    while i < cs.len()
        invariant
            i <= cs.len(),
            cs@ == input@,
            s@ == start + escaped(cs@.take(i as int)),
        decreases cs.len() - i,
    {
        let c = cs[i];
        if c == '&' {
            push_str(s, "&amp;");
        } else if c == '<' {
            push_str(s, "&lt;");
        } else if c == '>' {
            push_str(s, "&gt;");
        } else if c == '"' {
            push_str(s, "&quot;");
        } else if c == '\'' {
            push_str(s, "&#39;");
        } else {
            push_char(s, c);
            assert(s@ == start + escaped(cs@.take(i as int)) + seq![c]);
        }
        assert(cs@.take(i + 1).drop_last() =~= cs@.take(i as int));
        assert(s@ =~= start + escaped(cs@.take(i + 1)));
        i += 1;
    }
    assert(cs@.take(cs.len() as int) =~= cs@);
}

/// Escape the five HTML-significant characters (`& < > " '`), so dynamic
/// text such as a Riot ID can never break the markup.
pub fn escape_html(input: &str) -> (r: String)
    ensures
        r@ == escaped(input@),
{
    let mut r = String::new();
    push_escaped(&mut r, input);
    r
}

/// One of the five characters that are escaped.
pub open spec fn is_markup_char(c: char) -> bool {
    c == '&' || c == '<' || c == '>' || c == '"' || c == '\''
}

proof fn lemma_escape_char_facts(c: char)
    ensures
        escape_char(c).len() >= 1,
        is_markup_char(c) ==> escape_char(c).len() >= 4 && escape_char(c)[0] == '&',
        !is_markup_char(c) ==> escape_char(c) == seq![c],
        c == '&' ==> escape_char(c)[1] == 'a',
        c == '<' ==> escape_char(c)[1] == 'l',
        c == '>' ==> escape_char(c)[1] == 'g',
        c == '"' ==> escape_char(c)[1] == 'q',
        c == '\'' ==> escape_char(c)[1] == '#',
        forall|i: int|
            0 <= i < escape_char(c).len() ==> {
                let e = #[trigger] escape_char(c)[i];
                e != '<' && e != '>' && e != '"' && e != '\''
            },
{
    reveal_strlit("&amp;");
    reveal_strlit("&lt;");
    reveal_strlit("&gt;");
    reveal_strlit("&quot;");
    reveal_strlit("&#39;");
}

/// Escaped text holds none of `<`, `>`, `"`, `'`: whatever a field holds, it
/// cannot open or close a tag or an attribute of the markup around it.
pub proof fn lemma_escaped_is_inert(s: Seq<char>)
    ensures
        forall|i: int|
            0 <= i < escaped(s).len() ==> {
                let e = #[trigger] escaped(s)[i];
                e != '<' && e != '>' && e != '"' && e != '\''
            },
    decreases s.len(),
{
    if s.len() > 0 {
        lemma_escaped_is_inert(s.drop_last());
        lemma_escape_char_facts(s.last());
        let a = escaped(s.drop_last());
        let b = escape_char(s.last());
        assert forall|i: int| 0 <= i < escaped(s).len() implies {
            let e = #[trigger] escaped(s)[i];
            e != '<' && e != '>' && e != '"' && e != '\''
        } by {
            if i < a.len() {
                assert(escaped(s)[i] == a[i]);
            } else {
                assert(escaped(s)[i] == b[i - a.len()]);
            }
        }
    }
}

proof fn lemma_escaped_len(s: Seq<char>)
    ensures
        escaped(s).len() >= s.len(),
    decreases s.len(),
{
    if s.len() > 0 {
        lemma_escaped_len(s.drop_last());
        lemma_escape_char_facts(s.last());
    }
}

proof fn lemma_escaped_front(s: Seq<char>)
    requires
        s.len() > 0,
    ensures
        escaped(s) == escape_char(s[0]) + escaped(s.drop_first()),
    decreases s.len(),
{
    if s.len() == 1 {
        assert(s.drop_last() =~= Seq::<char>::empty());
        assert(s.drop_first() =~= Seq::<char>::empty());
        assert(escaped(s) =~= escape_char(s[0]) + escaped(s.drop_first()));
    } else {
        lemma_escaped_front(s.drop_last());
        assert(s.drop_last()[0] == s[0]);
        assert(s.drop_last().drop_first() =~= s.drop_first().drop_last());
        assert(s.drop_first().last() == s.last());
        assert(escaped(s) =~= escape_char(s[0]) + escaped(s.drop_first()));
    }
}

/// Escaping loses nothing: two texts with the same escaped form are equal,
/// so the input text can always be read back from the markup.
pub proof fn lemma_escaped_injective(a: Seq<char>, b: Seq<char>)
    requires
        escaped(a) == escaped(b),
    ensures
        a == b,
    decreases a.len(),
{
    lemma_escaped_len(a);
    lemma_escaped_len(b);
    if a.len() == 0 {
        if b.len() > 0 {
            lemma_escaped_front(b);
            lemma_escape_char_facts(b[0]);
        }
        assert(a =~= b);
    } else if b.len() == 0 {
        lemma_escaped_front(a);
        lemma_escape_char_facts(a[0]);
    } else {
        lemma_escaped_front(a);
        lemma_escaped_front(b);
        lemma_escape_char_facts(a[0]);
        lemma_escape_char_facts(b[0]);
        let (ea, eb) = (escape_char(a[0]), escape_char(b[0]));
        let e = escaped(a);
        assert(e[0] == ea[0] && e[0] == eb[0]);
        if is_markup_char(a[0]) && is_markup_char(b[0]) {
            assert(e[1] == ea[1] && e[1] == eb[1]);
        }
        assert(a[0] == b[0]);
        assert(escaped(a.drop_first()) =~= e.skip(ea.len() as int));
        assert(escaped(b.drop_first()) =~= e.skip(ea.len() as int));
        lemma_escaped_injective(a.drop_first(), b.drop_first());
        assert(a =~= seq![a[0]] + a.drop_first());
        assert(b =~= seq![b[0]] + b.drop_first());
    }
}

// ----------------------------------------------------------------------------
// Script detection (font subsets)
// ----------------------------------------------------------------------------

/// Hangul code point: Jamo, Compatibility Jamo or a syllable.
pub open spec fn is_hangul(c: char) -> bool {
    ('\u{1100}' <= c && c <= '\u{11FF}') || ('\u{3130}' <= c && c <= '\u{318F}') || ('\u{AC00}' <= c
        && c <= '\u{D7A3}')
}

/// Han (CJK Unified, incl. Extension A) ideograph.
pub open spec fn is_han(c: char) -> bool {
    ('\u{3400}' <= c && c <= '\u{4DBF}') || ('\u{4E00}' <= c && c <= '\u{9FFF}')
}

/// Whether `s` contains any Hangul code point.
pub fn contains_hangul(s: &str) -> (r: bool)
    ensures
        r == exists|i: int| 0 <= i < s@.len() && is_hangul(#[trigger] s@[i]),
{
    let cs = chars_of(s);
    let mut i: usize = 0;
    while i < cs.len()
        invariant
            i <= cs.len(),
            cs@ == s@,
            forall|j: int| 0 <= j < i ==> !is_hangul(#[trigger] cs@[j]),
        decreases cs.len() - i,
    {
        let c = cs[i];
        if ('\u{1100}' <= c && c <= '\u{11FF}') || ('\u{3130}' <= c && c <= '\u{318F}') || (
        '\u{AC00}' <= c && c <= '\u{D7A3}') {
            assert(is_hangul(s@[i as int]));
            return true;
        }
        i += 1;
    }
    false
}

/// Whether `s` contains any Han ideograph.
pub fn contains_han(s: &str) -> (r: bool)
    ensures
        r == exists|i: int| 0 <= i < s@.len() && is_han(#[trigger] s@[i]),
{
    let cs = chars_of(s);
    let mut i: usize = 0;
    while i < cs.len()
        invariant
            i <= cs.len(),
            cs@ == s@,
            forall|j: int| 0 <= j < i ==> !is_han(#[trigger] cs@[j]),
        decreases cs.len() - i,
    {
        let c = cs[i];
        if ('\u{3400}' <= c && c <= '\u{4DBF}') || ('\u{4E00}' <= c && c <= '\u{9FFF}') {
            assert(is_han(s@[i as int]));
            return true;
        }
        i += 1;
    }
    false
}

// ----------------------------------------------------------------------------
// Asset URLs
// ----------------------------------------------------------------------------

/// CommunityDragon "latest" root (role glyphs, rank crests, minimap icons).
pub open spec fn cdragon() -> Seq<char> {
    "https://raw.communitydragon.org/latest"@
}

/// Versioned item icon URL.
pub open spec fn item_url(version: Seq<char>, id: int) -> Seq<char> {
    ddragon_cdn() + "/"@ + version + "/img/item/"@ + signed_decimal(id) + ".png"@
}

/// Versioned champion square icon URL.
pub open spec fn champion_square_url(version: Seq<char>, key: Seq<char>) -> Seq<char> {
    ddragon_cdn() + "/"@ + version + "/img/champion/"@ + key + ".png"@
}

/// Glyph key of a `teamPosition`, for the five lane positions.
pub open spec fn position_key(pos: Seq<char>) -> Option<Seq<char>> {
    if pos == "TOP"@ {
        Some("top"@)
    } else if pos == "JUNGLE"@ {
        Some("jungle"@)
    } else if pos == "MIDDLE"@ {
        Some("middle"@)
    } else if pos == "BOTTOM"@ {
        Some("bottom"@)
    } else if pos == "UTILITY"@ {
        Some("utility"@)
    } else {
        None
    }
}

/// Role glyph (SVG) URL of a position key.
pub open spec fn position_icon_url(key: Seq<char>) -> Seq<char> {
    cdragon() + "/plugins/rcp-fe-lol-static-assets/global/default/svg/position-"@ + key + ".svg"@
}

/// Ranked mini-crest (SVG) URL of a tier key.
pub open spec fn rank_emblem_url(key: Seq<char>) -> Seq<char> {
    cdragon() + "/plugins/rcp-fe-lol-static-assets/global/default/images/ranked-mini-crests/"@ + key
        + ".svg"@
}

/// Minimap objective icon URL.
pub open spec fn objective_icon_url(name: Seq<char>) -> Seq<char> {
    cdragon() + "/game/assets/ux/minimap/icons/"@ + name + ".png"@
}

/// Versioned item icon URL (`…/14.24.1/img/item/3153.png`).
pub fn item_src(version: &str, id: i32) -> (r: String)
    ensures
        r@ == item_url(version@, id as int),
{
    let mut r = string_of("https://ddragon.leagueoflegends.com/cdn");
    push_str(&mut r, "/");
    push_str(&mut r, version);
    push_str(&mut r, "/img/item/");
    push_signed(&mut r, id as i64);
    push_str(&mut r, ".png");
    r
}

/// Versioned champion square icon URL.
pub fn champion_square_src(version: &str, key: &str) -> (r: String)
    ensures
        r@ == champion_square_url(version@, key@),
{
    let mut r = string_of("https://ddragon.leagueoflegends.com/cdn");
    push_str(&mut r, "/");
    push_str(&mut r, version);
    push_str(&mut r, "/img/champion/");
    push_str(&mut r, key);
    push_str(&mut r, ".png");
    r
}

/// Role glyph for a `teamPosition`; `None` for an empty or unknown position.
pub fn position_icon_src(team_position: &str) -> (r: Option<String>)
    ensures
        match position_key(team_position@) {
            Some(k) => r matches Some(u) && u@ == position_icon_url(k),
            None => r is None,
        },
{
    let key = if str_eq(team_position, "TOP") {
        "top"
    } else if str_eq(team_position, "JUNGLE") {
        "jungle"
    } else if str_eq(team_position, "MIDDLE") {
        "middle"
    } else if str_eq(team_position, "BOTTOM") {
        "bottom"
    } else if str_eq(team_position, "UTILITY") {
        "utility"
    } else {
        return None;
    };
    let mut r = string_of("https://raw.communitydragon.org/latest");
    push_str(&mut r, "/plugins/rcp-fe-lol-static-assets/global/default/svg/position-");
    push_str(&mut r, key);
    push_str(&mut r, ".svg");
    Some(r)
}

/// Characters of `s` up to its first whitespace.
pub open spec fn leading_word(s: Seq<char>) -> Seq<char>
    decreases s.len(),
{
    if s.len() == 0 || is_whitespace_char(s[0]) {
        Seq::empty()
    } else {
        seq![s[0]] + leading_word(s.drop_first())
    }
}

/// The first whitespace-separated word of `s` (empty when there is none).
pub open spec fn first_word(s: Seq<char>) -> Seq<char>
    decreases s.len(),
{
    if s.len() == 0 {
        Seq::empty()
    } else if is_whitespace_char(s[0]) {
        first_word(s.drop_first())
    } else {
        leading_word(s)
    }
}

proof fn lemma_leading_word_from(s: Seq<char>, i: int, j: int)
    requires
        0 <= i <= j <= s.len(),
        forall|k: int| i <= k < j ==> !is_whitespace_char(#[trigger] s[k]),
        j == s.len() || is_whitespace_char(s[j]),
    ensures
        leading_word(s.skip(i)) == s.subrange(i, j),
    decreases j - i,
{
    if i == j {
        if j < s.len() {
            assert(s.skip(i)[0] == s[j]);
        }
        assert(s.subrange(i, j) =~= Seq::<char>::empty());
    } else {
        lemma_leading_word_from(s, i + 1, j);
        assert(s.skip(i).drop_first() =~= s.skip(i + 1));
        assert(s.skip(i)[0] == s[i]);
        assert(s.subrange(i, j) =~= seq![s[i]] + s.subrange(i + 1, j));
    }
}

proof fn lemma_first_word_skip(s: Seq<char>, i: int)
    requires
        0 <= i <= s.len(),
        forall|k: int| 0 <= k < i ==> is_whitespace_char(#[trigger] s[k]),
    ensures
        first_word(s) == first_word(s.skip(i)),
    decreases i,
{
    if i > 0 {
        assert(s.skip(1) =~= s.drop_first());
        lemma_first_word_skip(s.drop_first(), i - 1);
        assert(s.drop_first().skip(i - 1) =~= s.skip(i));
    } else {
        assert(s.skip(0) =~= s);
    }
}

/// The first whitespace-separated word of `s`.
pub fn first_word_of(s: &str) -> (r: String)
    ensures
        r@ == first_word(s@),
{
    let cs = chars_of(s);
    let mut i: usize = 0;
    while i < cs.len() && is_whitespace(cs[i])
        invariant
            i <= cs.len(),
            cs@ == s@,
            forall|k: int| 0 <= k < i ==> is_whitespace_char(#[trigger] cs@[k]),
        decreases cs.len() - i,
    {
        i += 1;
    }
    proof {
        lemma_first_word_skip(s@, i as int);
    }
    let start = i;
    let mut r = String::new();
    while i < cs.len() && !is_whitespace(cs[i])
        invariant
            start <= i <= cs.len(),
            cs@ == s@,
            forall|k: int| start <= k < i ==> !is_whitespace_char(#[trigger] cs@[k]),
            r@ == cs@.subrange(start as int, i as int),
        decreases cs.len() - i,
    {
        push_char(&mut r, cs[i]);
        assert(cs@.subrange(start as int, i + 1) =~= cs@.subrange(start as int, i as int).push(cs@[i as int]));
        i += 1;
    }
    proof {
        lemma_leading_word_from(s@, start as int, i as int);
        if start < cs.len() {
            assert(s@.skip(start as int)[0] == s@[start as int]);
            assert(!is_whitespace_char(s@[start as int]));
            assert(first_word(s@.skip(start as int)) == leading_word(s@.skip(start as int)));
        } else {
            assert(s@.skip(start as int) =~= Seq::<char>::empty());
            assert(cs@.subrange(start as int, i as int) =~= Seq::<char>::empty());
        }
    }
    r
}

/// The ten ranked tiers, lower-case.
pub open spec fn known_tier_key(k: Seq<char>) -> bool {
    k == "iron"@ || k == "bronze"@ || k == "silver"@ || k == "gold"@ || k == "platinum"@ || k
        == "emerald"@ || k == "diamond"@ || k == "master"@ || k == "grandmaster"@ || k
        == "challenger"@
}

/// Tier key of a tier label (`Emerald IV` -> `emerald`): its first word,
/// lower-cased.
pub open spec fn tier_key(tier: Seq<char>) -> Seq<char> {
    unicode_lowercase(first_word(tier))
}

/// Ranked mini-crest for a tier label; `None` when its first word is not
/// one of the ten tiers.
pub fn rank_emblem_src(tier: &str) -> (r: Option<String>)
    ensures
        known_tier_key(tier_key(tier@)) ==> (r matches Some(u) && u@ == rank_emblem_url(
            tier_key(tier@),
        )),
        !known_tier_key(tier_key(tier@)) ==> r is None,
{
    let word = first_word_of(tier);
    let key = to_lowercase(word.as_str());
    let k = key.as_str();
    if str_eq(k, "iron") || str_eq(k, "bronze") || str_eq(k, "silver") || str_eq(k, "gold")
        || str_eq(k, "platinum") || str_eq(k, "emerald") || str_eq(k, "diamond") || str_eq(
        k,
        "master",
    ) || str_eq(k, "grandmaster") || str_eq(k, "challenger") {
        let mut r = string_of("https://raw.communitydragon.org/latest");
        push_str(
            &mut r,
            "/plugins/rcp-fe-lol-static-assets/global/default/images/ranked-mini-crests/",
        );
        push_str(&mut r, k);
        push_str(&mut r, ".svg");
        Some(r)
    } else {
        None
    }
}

/// Minimap objective icon (`dragon`, `baron`, `tower`).
pub fn objective_icon_src(name: &str) -> (r: String)
    ensures
        r@ == objective_icon_url(name@),
{
    let mut r = string_of("https://raw.communitydragon.org/latest");
    push_str(&mut r, "/game/assets/ux/minimap/icons/");
    push_str(&mut r, name);
    push_str(&mut r, ".png");
    r
}

// ----------------------------------------------------------------------------
// Numbers
// ----------------------------------------------------------------------------

/// Short text of a damage or gold total: `999`, `1.2k`, `1.0M`: the total
/// divided by a thousand or a million in doubles (`n as f64 / 1000.0`),
/// printed with one decimal.
pub open spec fn short_number(n: int) -> Seq<char> {
    if n >= 1_000_000 {
        let q = f64_int_div(n as nat, 1_000_000);
        fixed(q.0, q.1, 1) + "M"@
    } else if n >= 1000 {
        let q = f64_int_div(n as nat, 1000);
        fixed(q.0, q.1, 1) + "k"@
    } else {
        signed_decimal(n)
    }
}

/// Short numeric format used for damage and gold.
pub fn format_short(n: i64) -> (r: String)
    ensures
        r@ == short_number(n as int),
{
    let mut r = String::new();
    if n >= 1_000_000 {
        let q = f64_int_div_exec(n as u64, 1_000_000);
        push_fixed(&mut r, q.0, q.1, 1);
        push_str(&mut r, "M");
    } else if n >= 1000 {
        let q = f64_int_div_exec(n as u64, 1000);
        push_fixed(&mut r, q.0, q.1, 1);
        push_str(&mut r, "k");
    } else {
        push_signed(&mut r, n);
    }
    r
}

/// Signed text: `+19` for a gain, `-17` or `0` otherwise.
pub open spec fn signed_text(n: int) -> Seq<char> {
    if n > 0 {
        "+"@ + decimal(n as nat)
    } else {
        signed_decimal(n)
    }
}

/// Signed LP delta text.
pub fn format_signed(n: i32) -> (r: String)
    ensures
        r@ == signed_text(n as int),
{
    let mut r = String::new();
    if n > 0 {
        push_str(&mut r, "+");
        push_decimal(&mut r, n as u128);
    } else {
        push_signed(&mut r, n as i64);
    }
    r
}

/// `round(100 · part / whole)` (halves round up) within `0..=100`; `0` when
/// `whole <= 0`.
pub open spec fn percent_of(part: int, whole: int) -> int {
    if whole <= 0 || part <= 0 {
        0
    } else {
        let p = (200 * part + whole) / (2 * whole);
        if p > 100 {
            100
        } else {
            p
        }
    }
}

/// Rounded percentage of `part` in `whole`, saturated to `0..=100`.
pub fn percent(part: i64, whole: i64) -> (r: u8)
    ensures
        r == percent_of(part as int, whole as int),
{
    if whole <= 0 || part <= 0 {
        0
    } else {
        let p: i128 = (200 * (part as i128) + whole as i128) / (2 * whole as i128);
        if p > 100 {
            100
        } else {
            p as u8
        }
    }
}

/// A head-to-head share: `50` when both sides are zero.
pub open spec fn share_of(you: int, opp: int) -> int {
    if you + opp <= 0 {
        50
    } else {
        percent_of(you, you + opp)
    }
}

/// Player's share of a head-to-head total.
pub fn share(you: i64, opp: i64) -> (r: u8)
    requires
        i64::MIN <= you + opp <= i64::MAX,
    ensures
        r == share_of(you as int, opp as int),
{
    let total = you + opp;
    if total <= 0 {
        50
    } else {
        percent(you, total)
    }
}

/// Rounded win-rate from optional W/L counts; `None` without both counts or
/// without a game.
pub open spec fn win_rate_of(wins: Option<i32>, losses: Option<i32>) -> Option<int> {
    match (wins, losses) {
        (Some(w), Some(l)) => if w + l > 0 {
            Some(percent_of(w as int, w + l))
        } else {
            None
        },
        _ => None,
    }
}

/// The W/L sum fits `i32`.
pub open spec fn win_loss_fits(wins: Option<i32>, losses: Option<i32>) -> bool {
    match (wins, losses) {
        (Some(w), Some(l)) => i32::MIN <= w + l <= i32::MAX,
        _ => true,
    }
}

/// Rounded win-rate percentage.
pub fn win_rate(wins: Option<i32>, losses: Option<i32>) -> (r: Option<u8>)
    requires
        win_loss_fits(wins, losses),
    ensures
        match win_rate_of(wins, losses) {
            Some(p) => r == Some(p as u8),
            None => r is None,
        },
{
    let w = wins?;
    let l = losses?;
    let total = w + l;
    if total > 0 {
        Some(percent(w as i64, total as i64))
    } else {
        None
    }
}

/// Apex tiers (no 100-LP divisions).
pub open spec fn is_apex(upper_tier: Seq<char>) -> bool {
    upper_tier == "MASTER"@ || upper_tier == "GRANDMASTER"@ || upper_tier == "CHALLENGER"@
}

/// Division progress (LP clamped to `0..=100`); `None` for apex tiers.
pub open spec fn division_progress_of(tier: Seq<char>, lp: int) -> Option<int> {
    if is_apex(unicode_uppercase(tier)) {
        None
    } else if lp < 0 {
        Some(0)
    } else if lp > 100 {
        Some(100)
    } else {
        Some(lp)
    }
}

/// Division-progress bar value (0..=100) from LP; hidden for Master and above.
pub fn division_progress(tier: &str, lp: i32) -> (r: Option<u8>)
    ensures
        match division_progress_of(tier@, lp as int) {
            Some(p) => r == Some(p as u8),
            None => r is None,
        },
{
    let up = to_uppercase(tier);
    let u = up.as_str();
    if str_eq(u, "MASTER") || str_eq(u, "GRANDMASTER") || str_eq(u, "CHALLENGER") {
        None
    } else if lp < 0 {
        Some(0)
    } else if lp > 100 {
        Some(100)
    } else {
        Some(lp as u8)
    }
}

/// LP offset of a tier (`IRON` 0 … `CHALLENGER` 3600, 400 per tier;
/// unknown 0), by upper-cased tier name.
pub open spec fn tier_value(upper_tier: Seq<char>) -> int {
    if upper_tier == "IRON"@ {
        0
    } else if upper_tier == "BRONZE"@ {
        400
    } else if upper_tier == "SILVER"@ {
        800
    } else if upper_tier == "GOLD"@ {
        1200
    } else if upper_tier == "PLATINUM"@ {
        1600
    } else if upper_tier == "EMERALD"@ {
        2000
    } else if upper_tier == "DIAMOND"@ {
        2400
    } else if upper_tier == "MASTER"@ {
        2800
    } else if upper_tier == "GRANDMASTER"@ {
        3200
    } else if upper_tier == "CHALLENGER"@ {
        3600
    } else {
        0
    }
}

/// LP offset of a division (`IV` 0 … `I` 300; other 0).
pub open spec fn division_value(rank: Seq<char>) -> int {
    if rank == "IV"@ {
        0
    } else if rank == "III"@ {
        100
    } else if rank == "II"@ {
        200
    } else if rank == "I"@ {
        300
    } else {
        0
    }
}

/// A standing on one absolute LP scale.
pub open spec fn absolute_lp(r: RankInfo) -> int {
    tier_value(unicode_uppercase(r.tier@)) + division_value(r.rank@) + r.lp
}

/// The absolute LP of a standing fits `i32`.
pub open spec fn absolute_lp_fits(r: RankInfo) -> bool {
    i32::MIN <= absolute_lp(r) <= i32::MAX
}

/// LP offset of a standing's tier and division.
fn tier_division_lp(rank: &RankInfo) -> (r: i32)
    ensures
        r == tier_value(unicode_uppercase(rank.tier@)) + division_value(rank.rank@),
        0 <= r <= 3900,
{
    let up = to_uppercase(rank.tier.as_str());
    let t = up.as_str();
    let tier_value: i32 = if str_eq(t, "IRON") {
        0
    } else if str_eq(t, "BRONZE") {
        400
    } else if str_eq(t, "SILVER") {
        800
    } else if str_eq(t, "GOLD") {
        1200
    } else if str_eq(t, "PLATINUM") {
        1600
    } else if str_eq(t, "EMERALD") {
        2000
    } else if str_eq(t, "DIAMOND") {
        2400
    } else if str_eq(t, "MASTER") {
        2800
    } else if str_eq(t, "GRANDMASTER") {
        3200
    } else if str_eq(t, "CHALLENGER") {
        3600
    } else {
        0
    };
    let d = rank.rank.as_str();
    let division_value: i32 = if str_eq(d, "IV") {
        0
    } else if str_eq(d, "III") {
        100
    } else if str_eq(d, "II") {
        200
    } else if str_eq(d, "I") {
        300
    } else {
        0
    };
    tier_value + division_value
}

/// A standing on one absolute LP scale, computed wide enough for any standing.
pub fn absolute_lp_wide(rank: &RankInfo) -> (r: i64)
    ensures
        r == absolute_lp(*rank),
{
    tier_division_lp(rank) as i64 + rank.lp as i64
}

/// A standing on one absolute LP scale (tier + division + LP).
pub fn rank_to_lp(rank: &RankInfo) -> (r: i32)
    requires
        absolute_lp_fits(*rank),
    ensures
        r == absolute_lp(*rank),
{
    tier_division_lp(rank) + rank.lp
}

/// LP change between two standings, when both are known.
pub open spec fn lp_diff_of(old_rank: Option<RankInfo>, new_rank: Option<RankInfo>) -> Option<int> {
    match (old_rank, new_rank) {
        (Some(o), Some(n)) => Some(absolute_lp(n) - absolute_lp(o)),
        _ => None,
    }
}

/// Both standings, when present, sit on the `i32` LP scale and so does
/// their difference.
pub open spec fn lp_diff_fits(old_rank: Option<RankInfo>, new_rank: Option<RankInfo>) -> bool {
    match (old_rank, new_rank) {
        (Some(o), Some(n)) => absolute_lp_fits(o) && absolute_lp_fits(n) && i32::MIN <= absolute_lp(
            n,
        ) - absolute_lp(o) <= i32::MAX,
        _ => true,
    }
}

/// The divisions of a tier, from lowest to highest.
pub open spec fn divisions_in_order() -> Seq<Seq<char>> {
    seq!["IV"@, "III"@, "II"@, "I"@]
}

/// Within a tier the divisions are 100 LP apart: between two standings of
/// the same tier, the LP change is the difference in LP plus 100 for every
/// division climbed (or minus 100 for every division dropped), so a
/// promotion from III at 80 LP to II at 15 LP is a gain of 35.
pub proof fn lemma_divisions_are_100_lp_apart(o: RankInfo, n: RankInfo, i: int, j: int)
    requires
        o.tier@ == n.tier@,
        0 <= i < 4,
        0 <= j < 4,
        o.rank@ == divisions_in_order()[i],
        n.rank@ == divisions_in_order()[j],
    ensures
        lp_diff_of(Some(o), Some(n)) == Some(100 * (j - i) + n.lp - o.lp),
{
    reveal_strlit("IV");
    reveal_strlit("III");
    reveal_strlit("II");
    reveal_strlit("I");
    assert("III"@[2] != "II"@[1] || "III"@.len() != "II"@.len());
    assert(division_value("IV"@) == 0);
    assert(division_value("III"@) == 100);
    assert("II"@.len() != "IV"@.len() || "II"@[1] != "IV"@[1]);
    assert(division_value("II"@) == 200);
    assert("I"@.len() == 1 && "IV"@.len() == 2 && "III"@.len() == 3 && "II"@.len() == 2);
    assert(division_value("I"@) == 300);
}

/// The ranked tiers, from lowest to highest, by upper-cased name.
pub open spec fn tiers_in_order() -> Seq<Seq<char>> {
    seq![
        "IRON"@,
        "BRONZE"@,
        "SILVER"@,
        "GOLD"@,
        "PLATINUM"@,
        "EMERALD"@,
        "DIAMOND"@,
        "MASTER"@,
        "GRANDMASTER"@,
        "CHALLENGER"@,
    ]
}

/// Tiers are 400 LP apart: between two standings in the same division whose
/// tiers read (upper-cased) as the `i`-th and `j`-th tier, the LP change is
/// the difference in LP plus 400 for every tier climbed (or minus 400 for
/// every tier dropped).
pub proof fn lemma_tiers_are_400_lp_apart(o: RankInfo, n: RankInfo, i: int, j: int)
    requires
        0 <= i < 10,
        0 <= j < 10,
        o.rank@ == n.rank@,
    ensures
        unicode_uppercase(o.tier@) == tiers_in_order()[i] && unicode_uppercase(n.tier@)
            == tiers_in_order()[j] ==> lp_diff_of(Some(o), Some(n)) == Some(
            400 * (j - i) + n.lp - o.lp,
        ),
{
    reveal_strlit("IRON");
    reveal_strlit("BRONZE");
    reveal_strlit("SILVER");
    reveal_strlit("GOLD");
    reveal_strlit("PLATINUM");
    reveal_strlit("EMERALD");
    reveal_strlit("DIAMOND");
    reveal_strlit("MASTER");
    reveal_strlit("GRANDMASTER");
    reveal_strlit("CHALLENGER");
    let t = tiers_in_order();
    assert forall|k: int| 0 <= k < 10 implies tier_value(#[trigger] t[k]) == 400 * k by {
        if k == 0 {
            assert(t[0] == "IRON"@);
        } else if k == 1 {
            assert(t[1] == "BRONZE"@);
            assert(t[1][0] != "IRON"@[0]);
        } else if k == 2 {
            assert(t[2] == "SILVER"@);
            assert(t[2][0] != "IRON"@[0] && t[2][0] != "BRONZE"@[0]);
        } else if k == 3 {
            assert(t[3] == "GOLD"@);
            assert(t[3][0] != "IRON"@[0] && t[3][0] != "BRONZE"@[0] && t[3][0] != "SILVER"@[0]);
        } else if k == 4 {
            assert(t[4] == "PLATINUM"@);
            assert(t[4].len() != "IRON"@.len() && t[4].len() != "BRONZE"@.len());
            assert(t[4].len() != "SILVER"@.len() && t[4].len() != "GOLD"@.len());
        } else if k == 5 {
            assert(t[5] == "EMERALD"@);
            assert(t[5].len() != "IRON"@.len() && t[5].len() != "BRONZE"@.len());
            assert(t[5].len() != "SILVER"@.len() && t[5].len() != "GOLD"@.len());
            assert(t[5].len() != "PLATINUM"@.len());
        } else if k == 6 {
            assert(t[6] == "DIAMOND"@);
            assert(t[6].len() != "IRON"@.len() && t[6].len() != "BRONZE"@.len());
            assert(t[6].len() != "SILVER"@.len() && t[6].len() != "GOLD"@.len());
            assert(t[6].len() != "PLATINUM"@.len() && t[6][0] != "EMERALD"@[0]);
        } else if k == 7 {
            assert(t[7] == "MASTER"@);
            assert(t[7][0] != "IRON"@[0] && t[7][0] != "BRONZE"@[0] && t[7][0] != "SILVER"@[0]);
            assert(t[7][0] != "GOLD"@[0] && t[7][0] != "PLATINUM"@[0]);
            assert(t[7][0] != "EMERALD"@[0] && t[7][0] != "DIAMOND"@[0]);
        } else if k == 8 {
            assert(t[8] == "GRANDMASTER"@);
            assert(t[8].len() == 11);
            assert(t[8].len() != "IRON"@.len() && t[8].len() != "BRONZE"@.len());
            assert(t[8].len() != "SILVER"@.len() && t[8].len() != "GOLD"@.len());
            assert(t[8].len() != "PLATINUM"@.len() && t[8].len() != "EMERALD"@.len());
            assert(t[8].len() != "DIAMOND"@.len() && t[8].len() != "MASTER"@.len());
        } else {
            assert(t[9] == "CHALLENGER"@);
            assert(t[9].len() == 10);
            assert(t[9].len() != "IRON"@.len() && t[9].len() != "BRONZE"@.len());
            assert(t[9].len() != "SILVER"@.len() && t[9].len() != "GOLD"@.len());
            assert(t[9].len() != "PLATINUM"@.len() && t[9].len() != "EMERALD"@.len());
            assert(t[9].len() != "DIAMOND"@.len() && t[9].len() != "MASTER"@.len());
            assert(t[9].len() != "GRANDMASTER"@.len());
        }
    }
    assert(tier_value(t[i]) == 400 * i);
    assert(tier_value(t[j]) == 400 * j);
}

/// LP gained (or lost) between the standing before and after the game.
pub fn calculate_lp_diff(old_rank: Option<&RankInfo>, new_rank: Option<&RankInfo>) -> (r: Option<i32>)
    requires
        lp_diff_fits(
            match old_rank {
                Some(o) => Some(*o),
                None => None,
            },
            match new_rank {
                Some(n) => Some(*n),
                None => None,
            },
        ),
    ensures
        match lp_diff_of(
            match old_rank {
                Some(o) => Some(*o),
                None => None,
            },
            match new_rank {
                Some(n) => Some(*n),
                None => None,
            },
        ) {
            Some(d) => r == Some(d as i32),
            None => r is None,
        },
{
    let old = old_rank?;
    let new = new_rank?;
    Some(rank_to_lp(new) - rank_to_lp(old))
}

} // verus!

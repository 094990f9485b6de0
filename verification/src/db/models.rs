//! Rows of the player and guild tables, and the ranked standing kept per player.
use vstd::prelude::*;

use crate::text::{
    ascii_lower, ascii_lower_text, ascii_upper_char, char_to_uppercase, char_uppercase, chars_of,
    is_ascii_text, push_char, push_str, string_of, to_lowercase, unicode_lowercase,
};

verus! {

/// A tracked player row.
#[derive(Debug, Clone)]
pub struct Player {
    pub id: i64,
    pub puuid: String,
    pub game_name: String,
    pub tag_line: String,
    pub region: String,
    pub last_match_id: Option<String>,
    pub last_rank_solo_tier: Option<String>,
    pub last_rank_solo_rank: Option<String>,
    pub last_rank_solo_lp: Option<i32>,
    pub last_rank_flex_tier: Option<String>,
    pub last_rank_flex_rank: Option<String>,
    pub last_rank_flex_lp: Option<i32>,
}

/// A ranked standing. `wins`/`losses` are `None` when rebuilt from the stored
/// row (which keeps tier, rank and LP only).
#[derive(Debug, Clone, Default)]
pub struct RankInfo {
    pub tier: String,
    pub rank: String,
    pub lp: i32,
    pub wins: Option<i32>,
    pub losses: Option<i32>,
}

/// A server row.
#[derive(Debug, Clone)]
pub struct Guild {
    pub id: i64,
    pub alert_channel_id: Option<i64>,
}

/// `GameName#TAG`.
pub open spec fn riot_id_of(p: Player) -> Seq<char> {
    p.game_name@ + "#"@ + p.tag_line@
}

/// The standing stored in three optional columns, when all three are set.
pub open spec fn stored_rank(tier: Option<String>, rank: Option<String>, lp: Option<i32>) -> Option<
    RankInfo,
> {
    match (tier, rank, lp) {
        (Some(t), Some(r), Some(l)) => Some(RankInfo { tier: t, rank: r, lp: l, wins: None, losses: None }),
        _ => None,
    }
}

/// Tier word with only its first letter capitalised (`EMERALD` -> `Emerald`):
/// lower-case the tier, then upper-case its first character.
pub open spec fn capitalized_tier(tier: Seq<char>) -> Seq<char> {
    let lower = unicode_lowercase(tier);
    if lower.len() == 0 {
        Seq::empty()
    } else {
        char_uppercase(lower[0]) + lower.drop_first()
    }
}

/// ASCII tier word with only its first letter capitalised: what
/// [`capitalized_tier`] gives for ASCII text.
pub open spec fn ascii_capitalized(tier: Seq<char>) -> Seq<char> {
    let lower = ascii_lower_text(tier);
    if lower.len() == 0 {
        Seq::empty()
    } else {
        seq![ascii_upper_char(lower[0])] + lower.drop_first()
    }
}

/// `Emerald IV`.
pub open spec fn display_tier_of(r: RankInfo) -> Seq<char> {
    capitalized_tier(r.tier@) + " "@ + r.rank@
}

fn stored_rank_exec(tier: &Option<String>, rank: &Option<String>, lp: Option<i32>) -> (r: Option<
    RankInfo,
>)
    ensures
        r == stored_rank(*tier, *rank, lp),
{
    match (tier, rank, lp) {
        (Some(t), Some(k), Some(l)) => Some(
            RankInfo { tier: t.clone(), rank: k.clone(), lp: l, wins: None, losses: None },
        ),
        _ => None,
    }
}

impl Player {
    /// `GameName#TAG`.
    pub fn riot_id(&self) -> (r: String)
        ensures
            r@ == riot_id_of(*self),
    {
        let mut r = string_of(self.game_name.as_str());
        push_str(&mut r, "#");
        push_str(&mut r, self.tag_line.as_str());
        r
    }

    /// The stored Solo/Duo standing, when tier, rank and LP are all present.
    pub fn solo_rank_info(&self) -> (r: Option<RankInfo>)
        ensures
            r == stored_rank(self.last_rank_solo_tier, self.last_rank_solo_rank, self.last_rank_solo_lp),
    {
        stored_rank_exec(&self.last_rank_solo_tier, &self.last_rank_solo_rank, self.last_rank_solo_lp)
    }

    /// The stored Flex standing, when tier, rank and LP are all present.
    pub fn flex_rank_info(&self) -> (r: Option<RankInfo>)
        ensures
            r == stored_rank(self.last_rank_flex_tier, self.last_rank_flex_rank, self.last_rank_flex_lp),
    {
        stored_rank_exec(&self.last_rank_flex_tier, &self.last_rank_flex_rank, self.last_rank_flex_lp)
    }
}

impl RankInfo {
    /// `EMERALD` + `IV` -> `Emerald IV`.
    pub fn display_tier(&self) -> (r: String)
        ensures
            r@ == display_tier_of(*self),
            is_ascii_text(self.tier@) ==> r@ == ascii_capitalized(self.tier@) + " "@ + self.rank@,
    {
        let lower = to_lowercase(self.tier.as_str());
        let cs = chars_of(lower.as_str());
        let mut r = String::new();
        if cs.len() > 0 {
            proof {
                if is_ascii_text(self.tier@) {
                    assert((self.tier@[0] as u32) < 128);
                    assert(cs@[0] == ascii_lower(self.tier@[0]));
                }
            }
            let head = char_to_uppercase(cs[0]);
            push_str(&mut r, head.as_str());
            let mut i: usize = 1;
            while i < cs.len()
                invariant
                    1 <= i <= cs.len(),
                    cs@ == unicode_lowercase(self.tier@),
                    r@ == char_uppercase(cs@[0]) + cs@.subrange(1, i as int),
                decreases cs.len() - i,
            {
                push_char(&mut r, cs[i]);
                assert(cs@.subrange(1, i + 1) == cs@.subrange(1, i as int).push(cs@[i as int]));
                i += 1;
            }
            assert(cs@.subrange(1, cs.len() as int) == cs@.drop_first());
        }
        push_str(&mut r, " ");
        push_str(&mut r, self.rank.as_str());
        r
    }
}

} // verus!

//! Riot API response payloads (account-v1, league-v4, champion-mastery-v4,
//! match-v5) and the derived values the card reads from them.
use vstd::prelude::*;

use crate::numfmt::{push_signed, signed_decimal, int_to_string};
use crate::text::{push_char, push_str, str_eq};

verus! {

/// account-v1 account.
#[derive(Debug, Clone)]
pub struct AccountDto {
    pub puuid: String,
    pub game_name: Option<String>,
    pub tag_line: Option<String>,
}

/// One league-v4 ranked entry.
#[derive(Debug, Clone)]
pub struct LeagueEntryDto {
    pub queue_type: String,
    pub tier: String,
    pub rank: String,
    pub league_points: i32,
    pub wins: i32,
    pub losses: i32,
}

impl LeagueEntryDto {
    /// Whether the entry is the Solo/Duo ladder.
    pub fn is_solo_queue(&self) -> (r: bool)
        ensures
            r == (self.queue_type@ == "RANKED_SOLO_5x5"@),
    {
        str_eq(self.queue_type.as_str(), "RANKED_SOLO_5x5")
    }

    /// Whether the entry is the Flex ladder.
    pub fn is_flex_queue(&self) -> (r: bool)
        ensures
            r == (self.queue_type@ == "RANKED_FLEX_SR"@),
    {
        str_eq(self.queue_type.as_str(), "RANKED_FLEX_SR")
    }
}

/// A player's mastery on one champion (level and points only).
#[derive(Debug, Clone)]
pub struct ChampionMasteryDto {
    pub champion_level: i32,
    pub champion_points: i32,
}

/// match-v5 match.
#[derive(Debug, Clone)]
pub struct MatchDto {
    pub info: InfoDto,
}

/// match-v5 `info`.
#[derive(Debug, Clone)]
pub struct InfoDto {
    pub game_duration: i64,
    pub game_version: String,
    pub game_ended_in_early_surrender: bool,
    pub participants: Vec<ParticipantDto>,
    pub queue_id: i32,
    /// Per-team summary; empty for old payloads.
    pub teams: Vec<TeamDto>,
}

/// One team's objective tally.
#[derive(Debug, Clone, Default)]
pub struct TeamDto {
    pub team_id: i32,
    pub objectives: ObjectivesDto,
}

/// The objective counters the card renders.
#[derive(Debug, Clone, Default)]
pub struct ObjectivesDto {
    pub baron: ObjectiveCountDto,
    pub dragon: ObjectiveCountDto,
    pub tower: ObjectiveCountDto,
}

/// One objective counter.
#[derive(Debug, Clone, Default)]
pub struct ObjectiveCountDto {
    pub kills: i32,
}

/// Queues the tracker announces: normals (400, 430, 490), ranked (420, 440), ARAM (450).
pub open spec fn supported_queue(queue_id: i32) -> bool {
    queue_id == 400 || queue_id == 420 || queue_id == 430 || queue_id == 440 || queue_id == 450
        || queue_id == 490
}

/// Display name of a queue.
pub open spec fn queue_name_of(queue_id: i32) -> Seq<char> {
    if queue_id == 400 {
        "Normal Draft"@
    } else if queue_id == 420 {
        "Ranked Solo/Duo"@
    } else if queue_id == 430 {
        "Normal Blind"@
    } else if queue_id == 440 {
        "Ranked Flex"@
    } else if queue_id == 450 {
        "ARAM"@
    } else if queue_id == 490 {
        "Quickplay"@
    } else {
        "Other"@
    }
}

/// Number of `'.'` characters in `s`.
pub open spec fn count_dots(s: Seq<char>) -> nat
    decreases s.len(),
{
    if s.len() == 0 {
        0
    } else {
        count_dots(s.drop_last()) + if s.last() == '.' {
            1nat
        } else {
            0nat
        }
    }
}

/// `i` is the position of the second `'.'` of `s`.
pub open spec fn is_second_dot(s: Seq<char>, i: int) -> bool {
    0 <= i < s.len() && s[i] == '.' && count_dots(s.take(i)) == 1
}

/// Short patch version of a game version: cut before its second `'.'`, or
/// the whole version when it has fewer dots.
pub open spec fn patch_of(v: Seq<char>) -> Seq<char> {
    if exists|i: int| is_second_dot(v, i) {
        v.take(choose|i: int| is_second_dot(v, i))
    } else {
        v
    }
}

/// Rust's truncating integer division (`a / b`, rounding toward zero).
pub open spec fn trunc_div(a: int, b: int) -> int {
    if (a >= 0) == (b > 0) {
        if a >= 0 { a / b } else { (-a) / (-b) }
    } else {
        if a >= 0 { -(a / (-b)) } else { -((-a) / b) }
    }
}

/// Rust's remainder (`a % b`, sign of `a`).
pub open spec fn trunc_rem(a: int, b: int) -> int {
    a - b * trunc_div(a, b)
}

/// `{:02}` of an integer: zero-padded to two characters (a sign counts).
pub open spec fn two_digits(v: int) -> Seq<char> {
    if 0 <= v < 10 {
        seq!['0'] + signed_decimal(v)
    } else {
        signed_decimal(v)
    }
}

/// `m:ss` text of a duration in seconds.
pub open spec fn duration_text(secs: int) -> Seq<char> {
    signed_decimal(trunc_div(secs, 60)) + ":"@ + two_digits(trunc_rem(secs, 60))
}

impl InfoDto {
    /// Whether the queue is one the tracker announces.
    pub fn is_supported(&self) -> (r: bool)
        ensures
            r == supported_queue(self.queue_id),
    {
        let q = self.queue_id;
        q == 400 || q == 420 || q == 430 || q == 440 || q == 450 || q == 490
    }

    /// Short patch version: `game_version` cut before its second `'.'`
    /// (`14.24.632.8043` -> `14.24`), or the whole version when it has fewer dots.
    pub fn patch_version(&self) -> (r: &str)
        ensures
            r@ == patch_of(self.game_version@),
            forall|i: int| #[trigger] is_second_dot(self.game_version@, i) ==> r@
                == self.game_version@.take(i),
            (forall|i: int| !#[trigger] is_second_dot(self.game_version@, i)) ==> r@
                == self.game_version@,
    {
        let v = crate::text::chars_of(self.game_version.as_str());
        let mut dots: usize = 0;
        let mut i: usize = 0;
        while i < v.len()
            invariant
                v@ == self.game_version@,
                i <= v.len(),
                dots == count_dots(v@.take(i as int)),
                dots <= 1,
                forall|j: int| 0 <= j < i ==> !#[trigger] is_second_dot(v@, j),
            decreases v.len() - i,
        {
            assert(v@.take(i + 1).drop_last() == v@.take(i as int));
            if v[i] == '.' {
                if dots == 1 {
                    assert(is_second_dot(v@, i as int));
                    let r = self.game_version.as_str().substring_char(0, i);
                    assert forall|k: int| #[trigger] is_second_dot(self.game_version@, k) implies r@
                        == self.game_version@.take(k) by {
                        lemma_second_dot_unique(v@, i as int, k);
                    }
                    return r;
                }
                dots = dots + 1;
            }
            i += 1;
        }
        assert(v@.take(v.len() as int) == v@);
        assert forall|k: int| !#[trigger] is_second_dot(self.game_version@, k) by {
            if is_second_dot(self.game_version@, k) {
                assert(0 <= k < v.len());
            }
        }
        self.game_version.as_str()
    }

    /// `m:ss` game length (`1955` -> `32:35`).
    pub fn duration_formatted(&self) -> (r: String)
        ensures
            r@ == duration_text(self.game_duration as int),
    {
        let d = self.game_duration as i128;
        let (m, s): (i128, i128) = if d >= 0 {
            (d / 60, d % 60)
        } else {
            (0 - ((0 - d) / 60), 0 - ((0 - d) % 60))
        };
        assert(m == trunc_div(d as int, 60));
        assert(s == trunc_rem(d as int, 60));
        let mut r = String::new();
        push_signed(&mut r, m as i64);
        push_str(&mut r, ":");
        if 0 <= s && s < 10 {
            push_char(&mut r, '0');
        }
        push_signed(&mut r, s as i64);
        assert(r@ =~= duration_text(self.game_duration as int));
        r
    }

    /// Display name of the queue.
    pub fn queue_name(&self) -> (r: &'static str)
        ensures
            r@ == queue_name_of(self.queue_id),
    {
        match self.queue_id {
            400 => "Normal Draft",
            420 => "Ranked Solo/Duo",
            430 => "Normal Blind",
            440 => "Ranked Flex",
            450 => "ARAM",
            490 => "Quickplay",
            _ => "Other",
        }
    }

    /// Ranked queues (Solo/Duo 420, Flex 440).
    pub fn is_ranked(&self) -> (r: bool)
        ensures
            r == (self.queue_id == 420 || self.queue_id == 440),
    {
        self.queue_id == 420 || self.queue_id == 440
    }

    /// Ranked Solo/Duo.
    pub fn is_solo_queue(&self) -> (r: bool)
        ensures
            r == (self.queue_id == 420),
    {
        self.queue_id == 420
    }

    /// Ranked Flex.
    pub fn is_flex_queue(&self) -> (r: bool)
        ensures
            r == (self.queue_id == 440),
    {
        self.queue_id == 440
    }

    /// The first team summary whose id is `team_id`, if present.
    pub fn team(&self, team_id: i32) -> (r: Option<&TeamDto>)
        ensures
            match r {
                Some(t) => exists|i: int|
                    0 <= i < self.teams.len() && self.teams@[i] == *t && t.team_id == team_id
                        && forall|j: int| 0 <= j < i ==> #[trigger] self.teams@[j].team_id
                            != team_id,
                None => forall|i: int|
                    0 <= i < self.teams.len() ==> #[trigger] self.teams@[i].team_id != team_id,
            },
    {
        let mut i: usize = 0;
        while i < self.teams.len()
            invariant
                i <= self.teams.len(),
                forall|j: int| 0 <= j < i ==> #[trigger] self.teams@[j].team_id != team_id,
            decreases self.teams.len() - i,
        {
            if self.teams[i].team_id == team_id {
                return Some(&self.teams[i]);
            }
            i += 1;
        }
        None
    }
}

/// One participant of a match (the fields the card reads).
#[derive(Debug, Clone, Default)]
pub struct ParticipantDto {
    pub puuid: String,
    pub team_position: String,
    pub champion_name: String,
    pub kills: i32,
    pub deaths: i32,
    pub assists: i32,
    pub total_damage_dealt_to_champions: i64,
    pub total_minions_killed: i32,
    pub neutral_minions_killed: i32,
    pub vision_score: i32,
    pub gold_earned: i64,
    pub win: bool,
    pub item0: i32,
    pub item1: i32,
    pub item2: i32,
    pub item3: i32,
    pub item4: i32,
    pub item5: i32,
    pub item6: i32,
    /// `100` or `200`; groups allies and enemies.
    pub team_id: i32,
    pub champ_level: i32,
    pub double_kills: i32,
    pub triple_kills: i32,
    pub quadra_kills: i32,
    pub penta_kills: i32,
    /// Summoner-spell numeric keys (e.g. `4` = Flash).
    pub summoner1_id: i32,
    pub summoner2_id: i32,
    pub perks: PerksDto,
    pub wards_placed: i32,
    pub wards_killed: i32,
    pub detector_wards_placed: i32,
}

/// The rune styles of a participant.
#[derive(Debug, Clone, Default)]
pub struct PerksDto {
    pub styles: Vec<PerkStyleDto>,
}

/// One rune style (tree) with its selected runes.
#[derive(Debug, Clone, Default)]
pub struct PerkStyleDto {
    /// Rune style id (e.g. `8000` = Precision).
    pub style: i32,
    pub selections: Vec<PerkSelectionDto>,
}

/// One selected rune.
#[derive(Debug, Clone, Default)]
pub struct PerkSelectionDto {
    pub perk: i32,
}

/// An exact ratio `num / den` (`den != 0`).
#[derive(Debug, Clone, Copy, PartialEq, Eq)]
pub struct Ratio {
    pub num: i64,
    pub den: i64,
}

/// Display name of a `teamPosition`.
pub open spec fn position_display_of(pos: Seq<char>) -> Seq<char> {
    if pos == "TOP"@ {
        "Top"@
    } else if pos == "JUNGLE"@ {
        "Jungle"@
    } else if pos == "MIDDLE"@ {
        "Mid"@
    } else if pos == "BOTTOM"@ {
        "ADC"@
    } else if pos == "UTILITY"@ {
        "Support"@
    } else {
        ""@
    }
}

/// Kills + assists fits the stat type (`i32`).
pub open spec fn kill_assist_fits(p: ParticipantDto) -> bool {
    i32::MIN <= p.kills + p.assists <= i32::MAX
}

/// Whether kills + assists of `p` fits `i32` (what the KDA text needs).
pub fn kill_assist_in_range(p: &ParticipantDto) -> (r: bool)
    ensures
        r == kill_assist_fits(*p),
{
    let s: i64 = p.kills as i64 + p.assists as i64;
    -0x8000_0000 <= s && s <= 0x7fff_ffff
}

/// Lane minions + neutral monsters fits the stat type (`i32`).
pub open spec fn cs_fits(p: ParticipantDto) -> bool {
    i32::MIN <= p.total_minions_killed + p.neutral_minions_killed <= i32::MAX
}

/// Creep score.
pub open spec fn cs_total_of(p: ParticipantDto) -> int {
    p.total_minions_killed + p.neutral_minions_killed
}

/// `(kills + assists) / deaths`, or `kills + assists` over one for a deathless game.
pub open spec fn kda_ratio_of(p: ParticipantDto) -> Ratio {
    Ratio {
        num: (p.kills + p.assists) as i64,
        den: if p.deaths == 0 {
            1
        } else {
            p.deaths as i64
        },
    }
}

/// Creep score per minute of a game of `secs` seconds (`0` for a zero-length game).
pub open spec fn cs_per_minute_of(p: ParticipantDto, secs: i64) -> Ratio {
    if secs == 0 {
        Ratio { num: 0, den: 1 }
    } else {
        Ratio { num: (60 * cs_total_of(p)) as i64, den: secs }
    }
}

/// `wardsPlaced·wardsKilled·detectorWardsPlaced`.
pub open spec fn vision_breakdown_of(p: ParticipantDto) -> Seq<char> {
    signed_decimal(p.wards_placed as int) + seq!['\u{b7}'] + signed_decimal(p.wards_killed as int)
        + seq!['\u{b7}'] + signed_decimal(p.detector_wards_placed as int)
}

/// Keystone rune id: the first selection of the primary style, when positive.
pub open spec fn keystone_of(p: ParticipantDto) -> Option<i32> {
    if p.perks.styles.len() > 0 && p.perks.styles[0].selections.len() > 0
        && p.perks.styles[0].selections[0].perk > 0 {
        Some(p.perks.styles[0].selections[0].perk)
    } else {
        None
    }
}

/// Secondary rune style id, when present and positive.
pub open spec fn secondary_style_of(p: ParticipantDto) -> Option<i32> {
    if p.perks.styles.len() > 1 && p.perks.styles[1].style > 0 {
        Some(p.perks.styles[1].style)
    } else {
        None
    }
}

/// The highest multi-kill tier scored, as (count, name, is the double tier).
pub open spec fn multi_kill_tier(p: ParticipantDto) -> Option<(i32, Seq<char>, bool)> {
    if p.penta_kills > 0 {
        Some((p.penta_kills, "Penta"@, false))
    } else if p.quadra_kills > 0 {
        Some((p.quadra_kills, "Quadra"@, false))
    } else if p.triple_kills > 0 {
        Some((p.triple_kills, "Triple"@, false))
    } else if p.double_kills > 0 {
        Some((p.double_kills, "Double"@, true))
    } else {
        None
    }
}

/// Headline of the best multi-kill tier (`1 Triple`).
pub open spec fn multi_kill_label(p: ParticipantDto) -> Seq<char> {
    let t = multi_kill_tier(p).unwrap();
    signed_decimal(t.0 as int) + " "@ + t.1
}

/// Doubles sub-count (`+2 double`), shown under a higher tier only.
pub open spec fn multi_kill_sub(p: ParticipantDto) -> Option<Seq<char>> {
    let t = multi_kill_tier(p).unwrap();
    if !t.2 && p.double_kills > 0 {
        Some("+"@ + signed_decimal(p.double_kills as int) + " double"@)
    } else {
        None
    }
}

impl ParticipantDto {
    /// KDA as an exact ratio (`(kills + assists) / deaths`, deathless: over one).
    pub fn kda_ratio(&self) -> (r: Ratio)
        requires
            kill_assist_fits(*self),
        ensures
            r == kda_ratio_of(*self),
            r.den != 0,
    {
        let ka = (self.kills + self.assists) as i64;
        if self.deaths == 0 {
            Ratio { num: ka, den: 1 }
        } else {
            Ratio { num: ka, den: self.deaths as i64 }
        }
    }

    /// Lane minions plus neutral monsters.
    pub fn cs_total(&self) -> (r: i32)
        requires
            cs_fits(*self),
        ensures
            r == cs_total_of(*self),
    {
        self.total_minions_killed + self.neutral_minions_killed
    }

    /// Creep score per minute as an exact ratio (`0` for a zero-length game).
    pub fn cs_per_minute(&self, game_duration_secs: i64) -> (r: Ratio)
        requires
            cs_fits(*self),
        ensures
            r == cs_per_minute_of(*self, game_duration_secs),
            r.den != 0,
    {
        if game_duration_secs == 0 {
            Ratio { num: 0, den: 1 }
        } else {
            Ratio { num: 60 * (self.cs_total() as i64), den: game_duration_secs }
        }
    }

    /// Display name of the position (`BOTTOM` -> `ADC`), empty when unknown.
    pub fn position_display(&self) -> (r: &'static str)
        ensures
            r@ == position_display_of(self.team_position@),
    {
        let pos = self.team_position.as_str();
        if str_eq(pos, "TOP") {
            "Top"
        } else if str_eq(pos, "JUNGLE") {
            "Jungle"
        } else if str_eq(pos, "MIDDLE") {
            "Mid"
        } else if str_eq(pos, "BOTTOM") {
            "ADC"
        } else if str_eq(pos, "UTILITY") {
            "Support"
        } else {
            ""
        }
    }

    /// All seven item slots (six items then the trinket; `0` = empty).
    pub fn items(&self) -> (r: [i32; 7])
        ensures
            r@ == seq![
                self.item0,
                self.item1,
                self.item2,
                self.item3,
                self.item4,
                self.item5,
                self.item6,
            ],
    {
        let r = [
            self.item0,
            self.item1,
            self.item2,
            self.item3,
            self.item4,
            self.item5,
            self.item6,
        ];
        assert(r@ =~= seq![
            self.item0,
            self.item1,
            self.item2,
            self.item3,
            self.item4,
            self.item5,
            self.item6,
        ]);
        r
    }

    /// `wardsPlaced·wardsKilled·detectorWardsPlaced`, e.g. `12·7·4`.
    pub fn vision_breakdown(&self) -> (r: String)
        ensures
            r@ == vision_breakdown_of(*self),
    {
        let mut r = String::new();
        push_signed(&mut r, self.wards_placed as i64);
        push_char(&mut r, '\u{b7}');
        push_signed(&mut r, self.wards_killed as i64);
        push_char(&mut r, '\u{b7}');
        push_signed(&mut r, self.detector_wards_placed as i64);
        assert(r@ =~= vision_breakdown_of(*self));
        r
    }

    /// The keystone rune id (first selection of the primary style), if positive.
    pub fn keystone_perk_id(&self) -> (r: Option<i32>)
        ensures
            r == keystone_of(*self),
    {
        if self.perks.styles.len() == 0 {
            return None;
        }
        let primary = &self.perks.styles[0];
        if primary.selections.len() == 0 {
            return None;
        }
        let p = primary.selections[0].perk;
        if p > 0 {
            Some(p)
        } else {
            None
        }
    }

    /// The secondary rune style id, if present and positive.
    pub fn secondary_style_id(&self) -> (r: Option<i32>)
        ensures
            r == secondary_style_of(*self),
    {
        if self.perks.styles.len() < 2 {
            return None;
        }
        let s = self.perks.styles[1].style;
        if s > 0 {
            Some(s)
        } else {
            None
        }
    }

    /// Highest-tier multi-kill headline and an optional doubles sub-count,
    /// e.g. `("1 Triple", Some("+2 double"))`; `None` without any multi-kill.
    pub fn multi_kill(&self) -> (r: Option<(String, Option<String>)>)
        ensures
            multi_kill_tier(*self) is None <==> r is None,
            r matches Some((label, sub)) ==> {
                &&& label@ == multi_kill_label(*self)
                &&& (sub is Some <==> multi_kill_sub(*self) is Some)
                &&& sub matches Some(s) ==> s@ == multi_kill_sub(*self).unwrap()
            },
    {
        let (count, name, is_double): (i32, &str, bool) = if self.penta_kills > 0 {
            (self.penta_kills, "Penta", false)
        } else if self.quadra_kills > 0 {
            (self.quadra_kills, "Quadra", false)
        } else if self.triple_kills > 0 {
            (self.triple_kills, "Triple", false)
        } else if self.double_kills > 0 {
            (self.double_kills, "Double", true)
        } else {
            return None;
        };
        let mut label = int_to_string(count as i64);
        push_str(&mut label, " ");
        push_str(&mut label, name);
        let sub = if !is_double && self.double_kills > 0 {
            let mut s = String::new();
            push_str(&mut s, "+");
            push_signed(&mut s, self.double_kills as i64);
            push_str(&mut s, " double");
            Some(s)
        } else {
            None
        };
        Some((label, sub))
    }
}

proof fn lemma_count_dots_take_mono(s: Seq<char>, a: int, b: int)
    requires
        0 <= a <= b <= s.len(),
    ensures
        count_dots(s.take(a)) <= count_dots(s.take(b)),
    decreases b - a,
{
    if a < b {
        lemma_count_dots_take_mono(s, a, b - 1);
        assert(s.take(b).drop_last() == s.take(b - 1));
    }
}

proof fn lemma_second_dot_unique(s: Seq<char>, i: int, k: int)
    requires
        is_second_dot(s, i),
        is_second_dot(s, k),
    ensures
        i == k,
{
    if i < k {
        lemma_count_dots_take_mono(s, i + 1, k);
        assert(s.take(i + 1).drop_last() == s.take(i));
    } else if k < i {
        lemma_count_dots_take_mono(s, k + 1, i);
        assert(s.take(k + 1).drop_last() == s.take(k));
    }
}

} // verus!

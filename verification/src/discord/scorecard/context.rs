//! From a match to the card's view-model.
use vstd::prelude::*;

use super::assets::str_views;
use super::helpers::{
    absolute_lp_wide, calculate_lp_diff, champion_square_src, champion_square_url, division_progress,
    division_progress_of, format_short, format_signed, item_src, item_url, known_tier_key,
    lp_diff_fits, lp_diff_of, objective_icon_src, objective_icon_url, percent, percent_of,
    position_icon_src, position_icon_url, position_key, rank_emblem_src, rank_emblem_url, share,
    share_of, short_number, signed_text, tier_key, win_loss_fits, win_rate, win_rate_of,
};
use super::{Kda, Loadout, MasteryView, MatchResult, MatchupRow, MatchupView, Objective, RankView};
use super::{ScorecardVm, StatValue, TeamView};
use crate::db::models::{display_tier_of, RankInfo};
use crate::discord::ddragon::{ddragon_cdn, icon_url, spell_url, DdragonData};
use crate::discord::grade::{evaluate, grade_label, grade_of, GradeFacts, GradeInput};
use crate::discord::image_gen::MatchImageContext;
use crate::float::{cs_per_minute_string, cs_per_minute_text, f64_ratio_string, f64_ratio_text};
use crate::numfmt::{int_to_string, push_signed, signed_decimal};
use crate::riot::types::{
    cs_fits, cs_per_minute_of, cs_total_of, duration_text, keystone_of, kda_ratio_of,
    kill_assist_fits, multi_kill_label, multi_kill_sub, multi_kill_tier, patch_of,
    position_display_of, queue_name_of, secondary_style_of, vision_breakdown_of, InfoDto,
    ParticipantDto, Ratio, TeamDto,
};
use crate::text::{chars_of, push_str, str_eq, string_of, to_uppercase, unicode_uppercase};

verus! {

// ----------------------------------------------------------------------------
// Team context
// ----------------------------------------------------------------------------

/// The participants of `ps` on team `team_id` (`same`) or on the other
/// side, in order.
pub open spec fn side(ps: Seq<ParticipantDto>, team_id: i32, same: bool) -> Seq<ParticipantDto>
    decreases ps.len(),
{
    if ps.len() == 0 {
        Seq::empty()
    } else {
        let rest = side(ps.drop_last(), team_id, same);
        if (ps.last().team_id == team_id) == same {
            rest.push(ps.last())
        } else {
            rest
        }
    }
}

/// Total kills of some participants.
pub open spec fn kills_sum(ps: Seq<ParticipantDto>) -> int
    decreases ps.len(),
{
    if ps.len() == 0 {
        0
    } else {
        kills_sum(ps.drop_last()) + ps.last().kills
    }
}

/// Total damage to champions of some participants.
pub open spec fn damage_sum(ps: Seq<ParticipantDto>) -> int
    decreases ps.len(),
{
    if ps.len() == 0 {
        0
    } else {
        damage_sum(ps.drop_last()) + ps.last().total_damage_dealt_to_champions
    }
}

/// `me`'s team, `me` included.
pub open spec fn allies(info: InfoDto, me: ParticipantDto) -> Seq<ParticipantDto> {
    side(info.participants@, me.team_id, true)
}

/// The other team.
pub open spec fn enemies(info: InfoDto, me: ParticipantDto) -> Seq<ParticipantDto> {
    side(info.participants@, me.team_id, false)
}

/// A genuine 5v5 that did not end in an early surrender: the only games
/// whose team-relative stats are shown.
pub open spec fn has_team_context(info: InfoDto, me: ParticipantDto) -> bool {
    &&& !info.game_ended_in_early_surrender
    &&& allies(info, me).len() == 5
    &&& enemies(info, me).len() == 5
}

/// The first enemy in the same non-empty lane position.
pub open spec fn lane_opponent(enemies: Seq<ParticipantDto>, pos: Seq<char>) -> Option<ParticipantDto>
    decreases enemies.len(),
{
    if enemies.len() == 0 {
        None
    } else {
        match lane_opponent(enemies.drop_last(), pos) {
            Some(o) => Some(o),
            None => if pos.len() > 0 && enemies.last().team_position@ == pos {
                Some(enemies.last())
            } else {
                None
            },
        }
    }
}

/// `K/D/A` text.
pub open spec fn kda_text(p: ParticipantDto) -> Seq<char> {
    signed_decimal(p.kills as int) + "/"@ + signed_decimal(p.deaths as int) + "/"@
        + signed_decimal(p.assists as int)
}

/// The matchup comparisons fit the stat types.
pub open spec fn matchup_fits(me: ParticipantDto, opp: ParticipantDto) -> bool {
    &&& cs_fits(me)
    &&& cs_fits(opp)
    &&& i64::MIN <= me.total_damage_dealt_to_champions + opp.total_damage_dealt_to_champions
        <= i64::MAX
    &&& i64::MIN <= me.gold_earned + opp.gold_earned <= i64::MAX
}

/// The team totals of a 5v5 fit the stat types.
pub open spec fn team_fits(info: InfoDto, me: ParticipantDto) -> bool {
    has_team_context(info, me) ==> {
        &&& kill_assist_fits(me)
        &&& i32::MIN <= kills_sum(allies(info, me)) <= i32::MAX
        &&& i32::MIN <= kills_sum(enemies(info, me)) <= i32::MAX
        &&& i64::MIN <= damage_sum(allies(info, me)) <= i64::MAX
        &&& lane_opponent(enemies(info, me), me.team_position@) matches Some(o) ==> matchup_fits(
            me,
            o,
        )
    }
}

/// One comparison row holds these texts and this share.
pub open spec fn row_is(row: MatchupRow, key: Seq<char>, you: Seq<char>, opp: Seq<char>, pct: int) -> bool {
    row.key@ == key && row.you@ == you && row.opp@ == opp && row.you_pct == pct
}

/// The matchup panel of `me` against `opp`.
pub open spec fn matchup_is(m: MatchupView, me: ParticipantDto, opp: ParticipantDto, dd: DdragonData) -> bool {
    &&& m.label@ == "Matchup"@
    &&& m.opp_icon_src@ == champion_square_url(dd.version_view(), dd.key_for(opp.champion_name@))
    &&& m.opp_name@ == opp.champion_name@
    &&& m.opp_kda@ == kda_text(opp)
    &&& m.rows@.len() == 3
    &&& row_is(
        m.rows@[0],
        "DMG"@,
        short_number(me.total_damage_dealt_to_champions as int),
        short_number(opp.total_damage_dealt_to_champions as int),
        share_of(
            me.total_damage_dealt_to_champions as int,
            opp.total_damage_dealt_to_champions as int,
        ),
    )
    &&& row_is(
        m.rows@[1],
        "CS"@,
        signed_decimal(cs_total_of(me)),
        signed_decimal(cs_total_of(opp)),
        share_of(cs_total_of(me), cs_total_of(opp)),
    )
    &&& row_is(
        m.rows@[2],
        "Gold"@,
        short_number(me.gold_earned as int),
        short_number(opp.gold_earned as int),
        share_of(me.gold_earned as int, opp.gold_earned as int),
    )
}

/// The first team summary with id `id`.
pub open spec fn first_team(teams: Seq<TeamDto>, id: i32) -> Option<TeamDto>
    decreases teams.len(),
{
    if teams.len() == 0 {
        None
    } else {
        match first_team(teams.drop_last(), id) {
            Some(t) => Some(t),
            None => if teams.last().team_id == id {
                Some(teams.last())
            } else {
                None
            },
        }
    }
}

/// The drakes / Nashor / towers row of a team summary.
pub open spec fn objectives_are(obs: Seq<Objective>, t: TeamDto) -> bool {
    &&& obs.len() == 3
    &&& obs[0].icon_src@ == objective_icon_url("dragon"@) && obs[0].count == t.objectives.dragon.kills
        && obs[0].label@ == "Drakes"@
    &&& obs[1].icon_src@ == objective_icon_url("baron"@) && obs[1].count == t.objectives.baron.kills
        && obs[1].label@ == "Nashor"@
    &&& obs[2].icon_src@ == objective_icon_url("tower"@) && obs[2].count == t.objectives.tower.kills
        && obs[2].label@ == "Towers"@
}

/// Team-relative derivations of a 5v5, grouped on `teamId`.
pub struct TeamDerived {
    pub kp: u8,
    pub kp_sub: String,
    pub damage_share: u8,
    pub team_kills: i32,
    pub opp_kills: i32,
    pub matchup: Option<MatchupView>,
    pub objectives: Vec<Objective>,
}

/// What the team derivations of `me` in `info` are.
pub open spec fn team_derived_is(t: TeamDerived, info: InfoDto, me: ParticipantDto, dd: DdragonData) -> bool {
    let ka = me.kills + me.assists;
    let team_kills = kills_sum(allies(info, me));
    &&& t.kp == percent_of(ka, team_kills)
    &&& t.kp_sub@ == signed_decimal(ka) + "/"@ + signed_decimal(team_kills)
    &&& t.damage_share == percent_of(
        me.total_damage_dealt_to_champions as int,
        damage_sum(allies(info, me)),
    )
    &&& t.team_kills == team_kills
    &&& t.opp_kills == kills_sum(enemies(info, me))
    &&& match lane_opponent(enemies(info, me), me.team_position@) {
        Some(o) => t.matchup matches Some(m) && matchup_is(m, me, o, dd),
        None => t.matchup is None,
    }
    &&& match first_team(info.teams@, me.team_id) {
        Some(team) => objectives_are(t.objectives@, team),
        None => t.objectives@.len() == 0,
    }
}

/// The drakes / Nashor / towers row of the team panel.
pub fn team_objectives(t: &TeamDto) -> (r: Vec<Objective>)
    ensures
        objectives_are(r@, *t),
{
    let mut r: Vec<Objective> = Vec::new();
    r.push(
        Objective {
            icon_src: objective_icon_src("dragon"),
            count: t.objectives.dragon.kills,
            label: string_of("Drakes"),
        },
    );
    r.push(
        Objective {
            icon_src: objective_icon_src("baron"),
            count: t.objectives.baron.kills,
            label: string_of("Nashor"),
        },
    );
    r.push(
        Objective {
            icon_src: objective_icon_src("tower"),
            count: t.objectives.tower.kills,
            label: string_of("Towers"),
        },
    );
    r
}

fn kda_string(p: &ParticipantDto) -> (r: String)
    ensures
        r@ == kda_text(*p),
{
    let mut r = int_to_string(p.kills as i64);
    push_str(&mut r, "/");
    push_signed(&mut r, p.deaths as i64);
    push_str(&mut r, "/");
    push_signed(&mut r, p.assists as i64);
    r
}

fn matchup_view(me: &ParticipantDto, opp: &ParticipantDto, dd: &DdragonData) -> (m: MatchupView)
    requires
        matchup_fits(*me, *opp),
    ensures
        matchup_is(m, *me, *opp, *dd),
{
    let key = dd.champion_key(opp.champion_name.as_str());
    let me_cs = me.cs_total();
    let opp_cs = opp.cs_total();
    let mut rows: Vec<MatchupRow> = Vec::new();
    rows.push(
        MatchupRow {
            key: string_of("DMG"),
            you: format_short(me.total_damage_dealt_to_champions),
            opp: format_short(opp.total_damage_dealt_to_champions),
            you_pct: share(me.total_damage_dealt_to_champions, opp.total_damage_dealt_to_champions),
        },
    );
    rows.push(
        MatchupRow {
            key: string_of("CS"),
            you: int_to_string(me_cs as i64),
            opp: int_to_string(opp_cs as i64),
            you_pct: share(me_cs as i64, opp_cs as i64),
        },
    );
    rows.push(
        MatchupRow {
            key: string_of("Gold"),
            you: format_short(me.gold_earned),
            opp: format_short(opp.gold_earned),
            you_pct: share(me.gold_earned, opp.gold_earned),
        },
    );
    MatchupView {
        label: string_of("Matchup"),
        opp_icon_src: champion_square_src(dd.version(), key.as_str()),
        opp_name: opp.champion_name.clone(),
        opp_kda: kda_string(opp),
        rows,
    }
}

proof fn lemma_first_team(teams: Seq<TeamDto>, id: i32, i: int)
    requires
        0 <= i < teams.len(),
        teams[i].team_id == id,
        forall|j: int| 0 <= j < i ==> #[trigger] teams[j].team_id != id,
    ensures
        first_team(teams, id) == Some(teams[i]),
    decreases teams.len(),
{
    if i < teams.len() - 1 {
        let t0 = teams.drop_last();
        assert forall|j: int| 0 <= j < i implies #[trigger] t0[j].team_id != id by {
            assert(t0[j] == teams[j]);
        }
        lemma_first_team(t0, id, i);
        assert(t0[i] == teams[i]);
    } else {
        lemma_no_team(teams.drop_last(), id);
    }
}

proof fn lemma_no_team(teams: Seq<TeamDto>, id: i32)
    requires
        forall|j: int| 0 <= j < teams.len() ==> #[trigger] teams[j].team_id != id,
    ensures
        first_team(teams, id) is None,
    decreases teams.len(),
{
    if teams.len() > 0 {
        let t0 = teams.drop_last();
        assert forall|j: int| 0 <= j < t0.len() implies #[trigger] t0[j].team_id != id by {
            assert(t0[j] == teams[j]);
        }
        lemma_no_team(t0, id);
        assert(teams[teams.len() - 1].team_id != id);
    }
}

proof fn lemma_side_step(ps: Seq<ParticipantDto>, i: int, id: i32, same: bool)
    requires
        0 <= i < ps.len(),
    ensures
        side(ps.take(i + 1), id, same) == if (ps[i].team_id == id) == same {
            side(ps.take(i), id, same).push(ps[i])
        } else {
            side(ps.take(i), id, same)
        },
{
    assert(ps.take(i + 1).drop_last() =~= ps.take(i));
    assert(ps.take(i + 1).last() == ps[i]);
}

proof fn lemma_sums_push(s: Seq<ParticipantDto>, x: ParticipantDto)
    ensures
        kills_sum(s.push(x)) == kills_sum(s) + x.kills,
        damage_sum(s.push(x)) == damage_sum(s) + x.total_damage_dealt_to_champions,
{
    assert(s.push(x).drop_last() =~= s);
}

proof fn lemma_lane_push(s: Seq<ParticipantDto>, x: ParticipantDto, pos: Seq<char>)
    ensures
        lane_opponent(s.push(x), pos) == match lane_opponent(s, pos) {
            Some(o) => Some(o),
            None => if pos.len() > 0 && x.team_position@ == pos {
                Some(x)
            } else {
                None
            },
        },
{
    assert(s.push(x).drop_last() =~= s);
}

/// What one pass over the participants finds for `me`: team sizes, kill
/// and damage totals, and the index of the lane opponent.
struct TeamScan {
    n_allies: usize,
    n_enemies: usize,
    ally_kills: i128,
    enemy_kills: i128,
    ally_damage: i128,
    opp: Option<usize>,
}

fn scan_teams(info: &InfoDto, me: &ParticipantDto) -> (r: TeamScan)
    ensures
        r.n_allies == allies(*info, *me).len(),
        r.n_enemies == enemies(*info, *me).len(),
        r.ally_kills == kills_sum(allies(*info, *me)),
        r.enemy_kills == kills_sum(enemies(*info, *me)),
        r.ally_damage == damage_sum(allies(*info, *me)),
        match r.opp {
            Some(j) => j < info.participants.len() && lane_opponent(
                enemies(*info, *me),
                me.team_position@,
            ) == Some(info.participants@[j as int]),
            None => lane_opponent(enemies(*info, *me), me.team_position@) is None,
        },
{
    let ps = &info.participants;
    let pos_set = chars_of(me.team_position.as_str()).len() > 0;
    let mut n_allies: usize = 0;
    let mut n_enemies: usize = 0;
    let mut ally_kills: i128 = 0;
    let mut enemy_kills: i128 = 0;
    let mut ally_damage: i128 = 0;
    let mut opp: Option<usize> = None;
    let mut i: usize = 0;
    while i < ps.len()
        invariant
            i <= ps.len(),
            pos_set == (me.team_position@.len() > 0),
            n_allies == side(ps@.take(i as int), me.team_id, true).len(),
            n_enemies == side(ps@.take(i as int), me.team_id, false).len(),
            n_allies <= i,
            n_enemies <= i,
            ally_kills == kills_sum(side(ps@.take(i as int), me.team_id, true)),
            enemy_kills == kills_sum(side(ps@.take(i as int), me.team_id, false)),
            ally_damage == damage_sum(side(ps@.take(i as int), me.team_id, true)),
            -0x8000_0000 * n_allies <= ally_kills <= 0x8000_0000 * n_allies,
            -0x8000_0000 * n_enemies <= enemy_kills <= 0x8000_0000 * n_enemies,
            -0x8000_0000_0000_0000 * n_allies <= ally_damage <= 0x8000_0000_0000_0000
                * n_allies,
            match opp {
                Some(j) => j < i && lane_opponent(
                    side(ps@.take(i as int), me.team_id, false),
                    me.team_position@,
                ) == Some(ps@[j as int]),
                None => lane_opponent(
                    side(ps@.take(i as int), me.team_id, false),
                    me.team_position@,
                ) is None,
            },
        decreases ps.len() - i,
    {
        let p = &ps[i];
        proof {
            lemma_side_step(ps@, i as int, me.team_id, true);
            lemma_side_step(ps@, i as int, me.team_id, false);
            lemma_sums_push(side(ps@.take(i as int), me.team_id, true), ps@[i as int]);
            lemma_sums_push(side(ps@.take(i as int), me.team_id, false), ps@[i as int]);
            lemma_lane_push(
                side(ps@.take(i as int), me.team_id, false),
                ps@[i as int],
                me.team_position@,
            );
        }
        if p.team_id == me.team_id {
            n_allies = n_allies + 1;
            ally_kills = ally_kills + p.kills as i128;
            ally_damage = ally_damage + p.total_damage_dealt_to_champions as i128;
        } else {
            n_enemies = n_enemies + 1;
            enemy_kills = enemy_kills + p.kills as i128;
            if opp.is_none() && pos_set && str_eq(
                p.team_position.as_str(),
                me.team_position.as_str(),
            ) {
                opp = Some(i);
            }
        }
        i += 1;
    }
    assert(ps@.take(ps.len() as int) =~= ps@);
    TeamScan { n_allies, n_enemies, ally_kills, enemy_kills, ally_damage, opp }
}

impl TeamDerived {
    /// Team-relative stats of `me`; `None` for an early surrender or
    /// anything that is not a genuine 5v5.
    pub fn compute(info: &InfoDto, me: &ParticipantDto, ddragon: &DdragonData) -> (r: Option<TeamDerived>)
        requires
            team_fits(*info, *me),
        ensures
            r is Some <==> has_team_context(*info, *me),
            r matches Some(t) ==> team_derived_is(t, *info, *me, *ddragon),
    {
        if info.game_ended_in_early_surrender {
            return None;
        }
        let ps = &info.participants;
        let scan = scan_teams(info, me);
        if scan.n_allies != 5 || scan.n_enemies != 5 {
            return None;
        }
        let ally_kills = scan.ally_kills;
        let enemy_kills = scan.enemy_kills;
        let ally_damage = scan.ally_damage;
        let opp = scan.opp;
        let team_kills = ally_kills as i32;
        let opp_kills = enemy_kills as i32;
        let team_damage = ally_damage as i64;
        let ka = me.kills + me.assists;
        let kp = percent(ka as i64, team_kills as i64);
        let mut kp_sub = int_to_string(ka as i64);
        push_str(&mut kp_sub, "/");
        push_signed(&mut kp_sub, team_kills as i64);
        let matchup = match opp {
            Some(j) => Some(matchup_view(me, &ps[j], ddragon)),
            None => None,
        };
        let objectives = match info.team(me.team_id) {
            Some(t) => {
                proof {
                    let k = choose|k: int|
                        0 <= k < info.teams.len() && info.teams@[k] == *t && t.team_id == me.team_id
                            && forall|j: int| 0 <= j < k ==> #[trigger] info.teams@[j].team_id
                                != me.team_id;
                    lemma_first_team(info.teams@, me.team_id, k);
                }
                team_objectives(t)
            },
            None => {
                proof {
                    lemma_no_team(info.teams@, me.team_id);
                }
                Vec::new()
            },
        };
        Some(
            TeamDerived {
                kp,
                kp_sub,
                damage_share: percent(me.total_damage_dealt_to_champions, team_damage),
                team_kills,
                opp_kills,
                matchup,
                objectives,
            },
        )
    }
}

// ----------------------------------------------------------------------------
// The whole card
// ----------------------------------------------------------------------------

/// Outcome of the game for the player.
pub open spec fn result_for(info: InfoDto, p: ParticipantDto) -> MatchResult {
    if info.game_ended_in_early_surrender {
        MatchResult::Remake
    } else if p.win {
        MatchResult::Victory
    } else {
        MatchResult::Defeat
    }
}

/// Loading-screen splash of a champion key (base skin).
pub open spec fn splash_url(key: Seq<char>) -> Seq<char> {
    ddragon_cdn() + "/img/champion/loading/"@ + key + "_0.jpg"@
}

/// `Queue · m:ss · Patch x.y`.
pub open spec fn meta_line_of(info: InfoDto) -> Seq<char> {
    queue_name_of(info.queue_id) + " \u{b7} "@ + duration_text(info.game_duration as int)
        + " \u{b7} "@ + "Patch "@ + patch_of(info.game_version@)
}

/// `n / d` rounded to the nearest integer, halves away from zero (`d > 0`).
pub open spec fn round_half_away(n: int, d: int) -> int {
    if n >= 0 {
        (2 * n + d) / (2 * d)
    } else {
        -((-2 * n + d) / (2 * d))
    }
}

/// `v` saturated to the `i64` range.
pub open spec fn clamp_i64(v: int) -> int {
    if v > i64::MAX {
        i64::MAX as int
    } else if v < i64::MIN {
        i64::MIN as int
    } else {
        v
    }
}

/// Gold per minute (`512/m`), when the game has a positive length.
pub open spec fn gold_sub_of(p: ParticipantDto, secs: i64) -> Option<Seq<char>> {
    if secs > 0 {
        Some(signed_decimal(clamp_i64(round_half_away(60 * p.gold_earned, secs as int))) + "/m"@)
    } else {
        None
    }
}

/// Vision score per minute, `0` for a game without positive length.
pub open spec fn vision_rate(p: ParticipantDto, secs: i64) -> Ratio {
    if secs > 0 {
        Ratio { num: (60 * p.vision_score) as i64, den: secs }
    } else {
        Ratio { num: 0, den: 1 }
    }
}

/// Ward breakdown, only when some ward was placed or cleared.
pub open spec fn vision_sub_of(p: ParticipantDto) -> Option<Seq<char>> {
    if p.wards_placed + p.wards_killed + p.detector_wards_placed > 0 {
        Some(vision_breakdown_of(p))
    } else {
        None
    }
}

/// An optional string read by value.
pub open spec fn opt_view(o: Option<String>) -> Option<Seq<char>> {
    match o {
        Some(s) => Some(s@),
        None => None,
    }
}

/// An optional small integer as a byte.
pub open spec fn opt_u8(o: Option<int>) -> Option<u8> {
    match o {
        Some(v) => Some(v as u8),
        None => None,
    }
}

/// An optional reference read by value.
pub open spec fn opt_rank(o: Option<&RankInfo>) -> Option<RankInfo> {
    match o {
        Some(r) => Some(*r),
        None => None,
    }
}

/// The standing shown in the ranked footer: the new one, in a ranked queue.
pub open spec fn shown_rank(ctx: MatchImageContext) -> Option<RankInfo> {
    if ctx.match_info.queue_id == 420 || ctx.match_info.queue_id == 440 {
        opt_rank(ctx.new_rank)
    } else {
        None
    }
}

/// The ranked footer of a standing `r` reached from `old`.
pub open spec fn rank_view_is(v: RankView, r: RankInfo, old: Option<RankInfo>, streak: Seq<bool>) -> bool {
    let tier = display_tier_of(r);
    &&& v.tier@ == tier
    &&& if known_tier_key(tier_key(tier)) {
        opt_view(v.emblem_src) == Some(rank_emblem_url(tier_key(tier)))
    } else {
        v.emblem_src is None
    }
    &&& v.lp == r.lp
    &&& opt_view(v.delta) == match lp_diff_of(old, Some(r)) {
        Some(d) => Some(signed_text(d)),
        None => None,
    }
    &&& v.progress == opt_u8(division_progress_of(r.tier@, r.lp as int))
    &&& v.winrate == opt_u8(win_rate_of(r.wins, r.losses))
    &&& v.wins == r.wins
    &&& v.losses == r.losses
    &&& v.streak@ == streak
}

/// Icon of a summoner spell key, if Data Dragon knows it.
pub open spec fn spell_icon(dd: DdragonData, key: i32) -> Option<Seq<char>> {
    if dd.spells_map().contains_key(key) {
        Some(spell_url(dd.version_view(), dd.spells_map()[key]))
    } else {
        None
    }
}

/// Keystone icon of a participant, if known.
pub open spec fn keystone_icon(dd: DdragonData, p: ParticipantDto) -> Option<Seq<char>> {
    match keystone_of(p) {
        Some(id) => if dd.runes_map().contains_key(id) {
            Some(icon_url(dd.runes_map()[id]))
        } else {
            None
        },
        None => None,
    }
}

/// Secondary-tree icon of a participant, if known.
pub open spec fn secondary_icon(dd: DdragonData, p: ParticipantDto) -> Option<Seq<char>> {
    match secondary_style_of(p) {
        Some(id) => if dd.styles_map().contains_key(id) {
            Some(icon_url(dd.styles_map()[id]))
        } else {
            None
        },
        None => None,
    }
}

/// An optional value as a list of zero or one.
pub open spec fn opt_seq(o: Option<Seq<char>>) -> Seq<Seq<char>> {
    match o {
        Some(u) => seq![u],
        None => Seq::empty(),
    }
}

/// Icon of an item slot; `None` for an empty slot (`0`).
pub open spec fn slot_icon(version: Seq<char>, id: i32) -> Option<Seq<char>> {
    if id > 0 {
        Some(item_url(version, id as int))
    } else {
        None
    }
}

/// The loadout strip of a participant.
pub open spec fn loadout_is(l: Loadout, p: ParticipantDto, dd: DdragonData) -> bool {
    let v = dd.version_view();
    let ids = seq![p.item0, p.item1, p.item2, p.item3, p.item4, p.item5];
    &&& str_views(l.spell_srcs@) == opt_seq(spell_icon(dd, p.summoner1_id)) + opt_seq(
        spell_icon(dd, p.summoner2_id),
    )
    &&& opt_view(l.keystone_src) == keystone_icon(dd, p)
    &&& opt_view(l.secondary_src) == secondary_icon(dd, p)
    &&& l.items@.len() == 6
    &&& forall|i: int| 0 <= i < 6 ==> opt_view(#[trigger] l.items@[i]) == slot_icon(v, ids[i])
    &&& opt_view(l.trinket_src) == slot_icon(v, p.item6)
}

/// The grade inputs of a 5v5, role read by value.
pub open spec fn grade_facts(info: InfoDto, p: ParticipantDto) -> GradeFacts {
    GradeFacts {
        role: p.team_position@,
        kda: kda_ratio_of(p),
        kp: percent_of(p.kills + p.assists, kills_sum(allies(info, p))) as u8,
        cs_per_min: cs_per_minute_of(p, info.game_duration),
        damage_share: percent_of(
            p.total_damage_dealt_to_champions as int,
            damage_sum(allies(info, p)),
        ) as u8,
        vision_per_min: vision_rate(p, info.game_duration),
    }
}

/// The team-relative parts of a card: present exactly for a genuine 5v5.
pub open spec fn team_parts_are(vm: ScorecardVm, info: InfoDto, p: ParticipantDto, dd: DdragonData) -> bool {
    if has_team_context(info, p) {
        let ka = p.kills + p.assists;
        let team_kills = kills_sum(allies(info, p));
        &&& opt_view(vm.grade) == Some(grade_label(grade_of(grade_facts(info, p))))
        &&& vm.kp == Some(percent_of(ka, team_kills) as u8)
        &&& opt_view(vm.kp_sub) == Some(signed_decimal(ka) + "/"@ + signed_decimal(team_kills))
        &&& vm.damage_share == Some(
            percent_of(p.total_damage_dealt_to_champions as int, damage_sum(allies(info, p))) as u8,
        )
        &&& match lane_opponent(enemies(info, p), p.team_position@) {
            Some(o) => vm.matchup matches Some(m) && matchup_is(m, p, o, dd),
            None => vm.matchup is None,
        }
        &&& vm.team matches Some(t) && t.kills == team_kills && t.opp_kills == kills_sum(
            enemies(info, p),
        ) && match first_team(info.teams@, p.team_id) {
            Some(team) => objectives_are(t.objectives@, team),
            None => t.objectives@.len() == 0,
        }
    } else {
        &&& vm.grade is None
        &&& vm.kp is None
        &&& vm.kp_sub is None
        &&& vm.damage_share is None
        &&& vm.matchup is None
        &&& vm.team is None
    }
}

/// The stats a card is built from fit their types.
pub open spec fn context_fits(ctx: MatchImageContext) -> bool {
    let p = *ctx.participant;
    &&& kill_assist_fits(p)
    &&& cs_fits(p)
    &&& team_fits(*ctx.match_info, p)
    &&& shown_rank(ctx) matches Some(r) ==> win_loss_fits(r.wins, r.losses) && lp_diff_fits(
        opt_rank(ctx.old_rank),
        Some(r),
    )
}

/// Whether a value lies in the range of `i32`.
fn in_i32(v: i128) -> (r: bool)
    ensures
        r == (i32::MIN <= v <= i32::MAX),
{
    -0x8000_0000 <= v && v <= 0x7fff_ffff
}

/// Whether a value lies in the range of `i64`.
fn in_i64(v: i128) -> (r: bool)
    ensures
        r == (i64::MIN <= v <= i64::MAX),
{
    -0x8000_0000_0000_0000 <= v && v <= 0x7fff_ffff_ffff_ffff
}

/// Whether the stats of `ctx` fit their types, so that a card can be built
/// from it (see [`ScorecardVm::from_context`]).
pub fn card_fits(ctx: &MatchImageContext) -> (r: bool)
    ensures
        r == context_fits(*ctx),
{
    let p = ctx.participant;
    let info = ctx.match_info;
    if !in_i32(p.kills as i128 + p.assists as i128) {
        return false;
    }
    if !in_i32(p.total_minions_killed as i128 + p.neutral_minions_killed as i128) {
        return false;
    }
    if !info.game_ended_in_early_surrender {
        let scan = scan_teams(info, p);
        if scan.n_allies == 5 && scan.n_enemies == 5 {
            if !in_i32(scan.ally_kills) || !in_i32(scan.enemy_kills) || !in_i64(scan.ally_damage) {
                return false;
            }
            if let Some(j) = scan.opp {
                let o = &info.participants[j];
                if !in_i32(o.total_minions_killed as i128 + o.neutral_minions_killed as i128) {
                    return false;
                }
                if !in_i64(
                    p.total_damage_dealt_to_champions as i128
                        + o.total_damage_dealt_to_champions as i128,
                ) {
                    return false;
                }
                if !in_i64(p.gold_earned as i128 + o.gold_earned as i128) {
                    return false;
                }
            }
        }
    }
    if info.queue_id == 420 || info.queue_id == 440 {
        if let Some(r) = ctx.new_rank {
            if let (Some(w), Some(l)) = (r.wins, r.losses) {
                if !in_i32(w as i128 + l as i128) {
                    return false;
                }
            }
            if let Some(o) = ctx.old_rank {
                let a = absolute_lp_wide(o);
                let b = absolute_lp_wide(r);
                if !in_i32(a as i128) || !in_i32(b as i128) || !in_i32(b as i128 - a as i128) {
                    return false;
                }
            }
        }
    }
    true
}

/// The card of a match when its stats fit their types (see [`card_fits`]),
/// else `None`.
pub fn card_of(ctx: &MatchImageContext, ddragon: &DdragonData) -> (r: Option<ScorecardVm>)
    ensures
        r is Some <==> context_fits(*ctx),
        r matches Some(vm) ==> card_is(vm, *ctx, *ddragon),
{
    if card_fits(ctx) {
        Some(ScorecardVm::from_context(ctx, ddragon))
    } else {
        None
    }
}

/// The card of a match, as [`ScorecardVm::from_context`] builds it.
pub open spec fn card_is(vm: ScorecardVm, ctx: MatchImageContext, dd: DdragonData) -> bool {
    let p = *ctx.participant;
    let info = *ctx.match_info;
    let secs = info.game_duration;
    let kda = kda_ratio_of(p);
    let cspm = cs_per_minute_of(p, secs);
    &&& vm.result == result_for(info, p)
    &&& vm.champion_splash_src@ == splash_url(dd.key_for(p.champion_name@))
    &&& vm.player_name@ == ctx.player.game_name@
    &&& vm.player_tag@ == "#"@ + ctx.player.tag_line@
    &&& vm.role_upper@ == unicode_uppercase(position_display_of(p.team_position@))
    &&& match position_key(p.team_position@) {
        Some(k) => opt_view(vm.role_icon_src) == Some(position_icon_url(k)),
        None => vm.role_icon_src is None,
    }
    &&& vm.champion_name@ == p.champion_name@
    &&& vm.champion_level == if p.champ_level > 0 {
        Some(p.champ_level)
    } else {
        None
    }
    &&& match shown_rank(ctx) {
        Some(r) => vm.rank matches Some(v) && rank_view_is(v, r, opt_rank(ctx.old_rank), ctx.streak@),
        None => vm.rank is None,
    }
    &&& match ctx.mastery {
        Some(m) => vm.mastery matches Some(v) && v.level@ == signed_decimal(m.level as int)
            && v.points@ == short_number(m.points as int),
        None => vm.mastery is None,
    }
    &&& vm.queue_label@ == queue_name_of(info.queue_id)
    &&& vm.meta_line@ == meta_line_of(info)
    &&& vm.kda == Kda { kills: p.kills, deaths: p.deaths, assists: p.assists }
    &&& vm.kda_ratio@ == f64_ratio_text(kda.num as int, kda.den as int, 2)
    &&& match multi_kill_tier(p) {
        Some(_) => opt_view(vm.multi) == Some(multi_kill_label(p)) && opt_view(vm.multi_sub)
            == multi_kill_sub(p),
        None => vm.multi is None && vm.multi_sub is None,
    }
    &&& vm.cs.value@ == signed_decimal(cs_total_of(p))
    &&& opt_view(vm.cs.sub) == Some(cs_per_minute_text(cs_total_of(p), secs as int) + "/m"@)
    &&& vm.gold.value@ == short_number(p.gold_earned as int)
    &&& opt_view(vm.gold.sub) == gold_sub_of(p, secs)
    &&& vm.damage_value@ == short_number(p.total_damage_dealt_to_champions as int)
    &&& vm.vision.value@ == signed_decimal(p.vision_score as int)
    &&& opt_view(vm.vision.sub) == vision_sub_of(p)
    &&& loadout_is(vm.loadout, p, dd)
    &&& team_parts_are(vm, info, p, dd)
}

fn copy_flags(v: &Vec<bool>) -> (r: Vec<bool>)
    ensures
        r@ == v@,
{
    let mut r: Vec<bool> = Vec::new();
    let mut i: usize = 0;
    while i < v.len()
        invariant
            i <= v.len(),
            r@ == v@.take(i as int),
        decreases v.len() - i,
    {
        r.push(v[i]);
        assert(r@ =~= v@.take(i + 1));
        i += 1;
    }
    assert(v@.take(v.len() as int) =~= v@);
    r
}

fn rank_view(r: &RankInfo, old: Option<&RankInfo>, streak: &Vec<bool>) -> (v: RankView)
    requires
        win_loss_fits(r.wins, r.losses),
        lp_diff_fits(opt_rank(old), Some(*r)),
    ensures
        rank_view_is(v, *r, opt_rank(old), streak@),
{
    let delta = calculate_lp_diff(old, Some(r));
    let tier = r.display_tier();
    let emblem_src = rank_emblem_src(tier.as_str());
    RankView {
        tier,
        emblem_src,
        lp: r.lp,
        delta: match delta {
            Some(d) => Some(format_signed(d)),
            None => None,
        },
        progress: division_progress(r.tier.as_str(), r.lp),
        winrate: win_rate(r.wins, r.losses),
        wins: r.wins,
        losses: r.losses,
        streak: copy_flags(streak),
    }
}

fn slot_src(version: &str, id: i32) -> (r: Option<String>)
    ensures
        opt_view(r) == slot_icon(version@, id),
{
    if id > 0 {
        Some(item_src(version, id))
    } else {
        None
    }
}

fn loadout_of(p: &ParticipantDto, dd: &DdragonData) -> (l: Loadout)
    ensures
        loadout_is(l, *p, *dd),
{
    let version = dd.version();
    let mut spell_srcs: Vec<String> = Vec::new();
    if let Some(u) = dd.spell_src(p.summoner1_id) {
        spell_srcs.push(u);
    }
    let ghost first = str_views(spell_srcs@);
    assert(first =~= opt_seq(spell_icon(*dd, p.summoner1_id)));
    if let Some(u) = dd.spell_src(p.summoner2_id) {
        spell_srcs.push(u);
    }
    assert(str_views(spell_srcs@) =~= opt_seq(spell_icon(*dd, p.summoner1_id)) + opt_seq(
        spell_icon(*dd, p.summoner2_id),
    ));
    let keystone_src = match p.keystone_perk_id() {
        Some(id) => dd.keystone_src(id),
        None => None,
    };
    let secondary_src = match p.secondary_style_id() {
        Some(id) => dd.secondary_src(id),
        None => None,
    };
    let ids = p.items();
    let mut items: Vec<Option<String>> = Vec::new();
    let mut i: usize = 0;
    while i < 6
        invariant
            i <= 6,
            version@ == dd.version_view(),
            ids@ == seq![p.item0, p.item1, p.item2, p.item3, p.item4, p.item5, p.item6],
            items@.len() == i,
            forall|j: int| 0 <= j < i ==> opt_view(#[trigger] items@[j]) == slot_icon(
                dd.version_view(),
                ids@[j],
            ),
        decreases 6 - i,
    {
        items.push(slot_src(version, ids[i]));
        i += 1;
    }
    let trinket_src = slot_src(version, ids[6]);
    let l = Loadout { spell_srcs, keystone_src, secondary_src, items, trinket_src };
    assert forall|j: int| 0 <= j < 6 implies opt_view(#[trigger] l.items@[j]) == slot_icon(
        dd.version_view(),
        seq![p.item0, p.item1, p.item2, p.item3, p.item4, p.item5][j],
    ) by {
        assert(ids@[j] == seq![p.item0, p.item1, p.item2, p.item3, p.item4, p.item5][j]);
    }
    l
}

fn gold_per_minute(p: &ParticipantDto, secs: i64) -> (r: Option<String>)
    ensures
        opt_view(r) == gold_sub_of(*p, secs),
{
    if secs > 0 {
        let n: i128 = 60 * (p.gold_earned as i128);
        let d: i128 = secs as i128;
        let q: i128 = if n >= 0 {
            (2 * n + d) / (2 * d)
        } else {
            0 - ((0 - 2 * n + d) / (2 * d))
        };
        let v: i64 = if q > i64::MAX as i128 {
            i64::MAX
        } else if q < i64::MIN as i128 {
            i64::MIN
        } else {
            q as i64
        };
        let mut r = int_to_string(v);
        push_str(&mut r, "/m");
        Some(r)
    } else {
        None
    }
}

fn meta_line(info: &InfoDto) -> (r: String)
    ensures
        r@ == meta_line_of(*info),
{
    let mut r = string_of(info.queue_name());
    push_str(&mut r, " \u{b7} ");
    let d = info.duration_formatted();
    push_str(&mut r, d.as_str());
    push_str(&mut r, " \u{b7} ");
    push_str(&mut r, "Patch ");
    push_str(&mut r, info.patch_version());
    r
}

impl ScorecardVm {
    /// The view-model of a match card, from the match and the Data Dragon
    /// tables. A block is left out exactly when its data is absent: team
    /// stats, matchup and grade outside a genuine 5v5, the ranked footer
    /// outside ranked queues or without a standing, mastery without data.
    pub fn from_context(ctx: &MatchImageContext, ddragon: &DdragonData) -> (vm: ScorecardVm)
        requires
            context_fits(*ctx),
        ensures
            card_is(vm, *ctx, *ddragon),
    {
        let p = ctx.participant;
        let info = ctx.match_info;
        let secs = info.game_duration;
        let champion_key = ddragon.champion_key(p.champion_name.as_str());
        let result = if info.game_ended_in_early_surrender {
            MatchResult::Remake
        } else if p.win {
            MatchResult::Victory
        } else {
            MatchResult::Defeat
        };
        let team = TeamDerived::compute(info, p, ddragon);
        let role_upper = to_uppercase(p.position_display());
        let rank = if info.is_ranked() {
            match ctx.new_rank {
                Some(r) => Some(rank_view(r, ctx.old_rank, &ctx.streak)),
                None => None,
            }
        } else {
            None
        };
        let (multi, multi_sub) = match p.multi_kill() {
            Some((label, sub)) => (Some(label), sub),
            None => (None, None),
        };
        let wards = p.wards_placed as i64 + p.wards_killed as i64 + p.detector_wards_placed as i64;
        let vision_sub = if wards > 0 {
            Some(p.vision_breakdown())
        } else {
            None
        };
        let kda = p.kda_ratio();
        let cspm = p.cs_per_minute(secs);
        let grade = match &team {
            Some(t) => {
                let vision_per_min = if secs > 0 {
                    Ratio { num: 60 * (p.vision_score as i64), den: secs }
                } else {
                    Ratio { num: 0, den: 1 }
                };
                let input = GradeInput {
                    role: p.team_position.as_str(),
                    kda,
                    kp: t.kp,
                    cs_per_min: cspm,
                    damage_share: t.damage_share,
                    vision_per_min,
                };
                let g = evaluate(&input);
                assert(input@ == grade_facts(*info, *p));
                Some(string_of(g.label()))
            },
            None => None,
        };
        let mut splash = string_of("https://ddragon.leagueoflegends.com/cdn");
        push_str(&mut splash, "/img/champion/loading/");
        push_str(&mut splash, champion_key.as_str());
        push_str(&mut splash, "_0.jpg");
        let mut player_tag = string_of("#");
        push_str(&mut player_tag, ctx.player.tag_line.as_str());
        let mut cs_sub = cs_per_minute_string(p.cs_total(), secs);
        push_str(&mut cs_sub, "/m");
        let (kp, kp_sub, damage_share, matchup, team_view) = match team {
            Some(t) => (
                Some(t.kp),
                Some(t.kp_sub),
                Some(t.damage_share),
                t.matchup,
                Some(TeamView { kills: t.team_kills, opp_kills: t.opp_kills, objectives: t.objectives }),
            ),
            None => (None, None, None, None, None),
        };
        ScorecardVm {
            result,
            champion_splash_src: splash,
            grade,
            player_name: ctx.player.game_name.clone(),
            player_tag,
            role_upper,
            role_icon_src: position_icon_src(p.team_position.as_str()),
            champion_name: p.champion_name.clone(),
            champion_level: if p.champ_level > 0 {
                Some(p.champ_level)
            } else {
                None
            },
            rank,
            mastery: match ctx.mastery {
                Some(m) => Some(
                    MasteryView {
                        level: int_to_string(m.level as i64),
                        points: format_short(m.points as i64),
                    },
                ),
                None => None,
            },
            queue_label: string_of(info.queue_name()),
            meta_line: meta_line(info),
            kda: Kda { kills: p.kills, deaths: p.deaths, assists: p.assists },
            kda_ratio: f64_ratio_string(kda.num, kda.den, 2),
            kp,
            kp_sub,
            multi,
            multi_sub,
            cs: StatValue::new(int_to_string(p.cs_total() as i64), Some(cs_sub)),
            gold: StatValue::new(format_short(p.gold_earned), gold_per_minute(p, secs)),
            damage_value: format_short(p.total_damage_dealt_to_champions),
            damage_share,
            vision: StatValue::new(int_to_string(p.vision_score as i64), vision_sub),
            loadout: loadout_of(p, ddragon),
            matchup,
            team: team_view,
        }
    }
}

} // verus!

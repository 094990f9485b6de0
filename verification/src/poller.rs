//! The decisions of a poll cycle: which match to announce, which standings
//! bracket it, and what to announce when no card can be rendered. The
//! fetching, storing and sending around them is the application's.
use vstd::prelude::*;

use crate::db::models::{display_tier_of, stored_rank, Player, RankInfo};
use crate::discord::image_gen::{MasteryInfo, MatchImageContext};
use crate::float::{f64_ratio_string, f64_ratio_text};
use crate::numfmt::{push_signed, signed_decimal};
use crate::riot::types::{
    duration_text, kda_ratio_of, kill_assist_fits, queue_name_of, supported_queue,
    ChampionMasteryDto, InfoDto, LeagueEntryDto, ParticipantDto,
};
use crate::text::{push_str, str_eq, string_of};
use crate::types::QueueType;

verus! {

// ----------------------------------------------------------------------------
// The match to process
// ----------------------------------------------------------------------------

/// The match a cycle processes: the player's latest match, unless it is the
/// one already announced.
pub open spec fn match_to_process(last: Option<Seq<char>>, ids: Seq<Seq<char>>) -> Option<Seq<char>> {
    if ids.len() == 0 {
        None
    } else if last == Some(ids[0]) {
        None
    } else {
        Some(ids[0])
    }
}

/// The latest match id (`ids` newest first) when it has not been announced yet.
pub fn new_match_id(last_match_id: &Option<String>, match_ids: &Vec<String>) -> (r: Option<String>)
    ensures
        match match_to_process(
            match last_match_id {
                Some(l) => Some(l@),
                None => None,
            },
            match_ids@.map_values(|s: String| s@),
        ) {
            Some(id) => r matches Some(x) && x@ == id,
            None => r is None,
        },
{
    if match_ids.len() == 0 {
        return None;
    }
    let latest = &match_ids[0];
    match last_match_id {
        Some(l) => {
            if str_eq(l.as_str(), latest.as_str()) {
                None
            } else {
                Some(latest.clone())
            }
        },
        None => Some(latest.clone()),
    }
}

/// Index of the first participant with `puuid`, if any.
pub fn find_participant(info: &InfoDto, puuid: &str) -> (r: Option<usize>)
    ensures
        match r {
            Some(i) => i < info.participants@.len() && info.participants@[i as int].puuid@
                == puuid@ && forall|j: int|
                0 <= j < i ==> #[trigger] info.participants@[j].puuid@ != puuid@,
            None => forall|j: int|
                0 <= j < info.participants@.len() ==> #[trigger] info.participants@[j].puuid@
                    != puuid@,
        },
{
    let mut i: usize = 0;
    while i < info.participants.len()
        invariant
            i <= info.participants@.len(),
            forall|j: int| 0 <= j < i ==> #[trigger] info.participants@[j].puuid@ != puuid@,
        decreases info.participants.len() - i,
    {
        if str_eq(info.participants[i].puuid.as_str(), puuid) {
            return Some(i);
        }
        i += 1;
    }
    None
}

// ----------------------------------------------------------------------------
// Standings around a match
// ----------------------------------------------------------------------------

/// The stored standing of the match's ranked queue, before the match.
pub open spec fn rank_before_of(p: Player, queue_id: i32) -> Option<RankInfo> {
    if queue_id == 420 {
        stored_rank(p.last_rank_solo_tier, p.last_rank_solo_rank, p.last_rank_solo_lp)
    } else if queue_id == 440 {
        stored_rank(p.last_rank_flex_tier, p.last_rank_flex_rank, p.last_rank_flex_lp)
    } else {
        None
    }
}

/// The player's stored standing in the match's queue (Solo/Duo or Flex).
pub fn rank_before(player: &Player, info: &InfoDto) -> (r: Option<RankInfo>)
    ensures
        r == rank_before_of(*player, info.queue_id),
{
    if info.is_solo_queue() {
        player.solo_rank_info()
    } else if info.is_flex_queue() {
        player.flex_rank_info()
    } else {
        None
    }
}

/// The standing of a league entry.
pub open spec fn entry_rank(e: LeagueEntryDto) -> RankInfo {
    RankInfo {
        tier: e.tier,
        rank: e.rank,
        lp: e.league_points,
        wins: Some(e.wins),
        losses: Some(e.losses),
    }
}

/// The Solo/Duo and Flex standings of the first `n` entries: for each
/// ladder, its last entry.
pub open spec fn ladder_ranks(es: Seq<LeagueEntryDto>) -> (Option<RankInfo>, Option<RankInfo>)
    decreases es.len(),
{
    if es.len() == 0 {
        (None, None)
    } else {
        let (solo, flex) = ladder_ranks(es.drop_last());
        let e = es.last();
        if e.queue_type@ == "RANKED_SOLO_5x5"@ {
            (Some(entry_rank(e)), flex)
        } else if e.queue_type@ == "RANKED_FLEX_SR"@ {
            (solo, Some(entry_rank(e)))
        } else {
            (solo, flex)
        }
    }
}

/// The Solo/Duo and Flex standings among a player's league entries.
pub fn rank_entries(entries: &Vec<LeagueEntryDto>) -> (r: (Option<RankInfo>, Option<RankInfo>))
    ensures
        r == ladder_ranks(entries@),
{
    let mut solo: Option<RankInfo> = None;
    let mut flex: Option<RankInfo> = None;
    let mut i: usize = 0;
    while i < entries.len()
        invariant
            i <= entries@.len(),
            (solo, flex) == ladder_ranks(entries@.take(i as int)),
        decreases entries.len() - i,
    {
        let e = &entries[i];
        assert(entries@.take(i + 1).drop_last() =~= entries@.take(i as int));
        let rank = RankInfo {
            tier: e.tier.clone(),
            rank: e.rank.clone(),
            lp: e.league_points,
            wins: Some(e.wins),
            losses: Some(e.losses),
        };
        if e.is_solo_queue() {
            solo = Some(rank);
        } else if e.is_flex_queue() {
            flex = Some(rank);
        }
        i += 1;
    }
    assert(entries@.take(entries.len() as int) =~= entries@);
    (solo, flex)
}

/// The fresh standing of the match's queue.
pub fn rank_after<'a>(info: &InfoDto, solo: &'a Option<RankInfo>, flex: &'a Option<RankInfo>) -> (r:
    Option<&'a RankInfo>)
    ensures
        info.queue_id == 420 ==> r == match solo {
            Some(x) => Some(x),
            None => None::<&RankInfo>,
        },
        info.queue_id == 440 ==> r == match flex {
            Some(x) => Some(x),
            None => None::<&RankInfo>,
        },
        info.queue_id != 420 && info.queue_id != 440 ==> r is None,
{
    if info.is_solo_queue() {
        solo.as_ref()
    } else if info.is_flex_queue() {
        flex.as_ref()
    } else {
        None
    }
}

/// Mastery shown on a non-ranked card.
pub fn mastery_info(m: &ChampionMasteryDto) -> (r: MasteryInfo)
    ensures
        r.level == m.champion_level,
        r.points == m.champion_points,
{
    MasteryInfo { level: m.champion_level, points: m.champion_points }
}

// ----------------------------------------------------------------------------
// Text announcement when no card can be rendered
// ----------------------------------------------------------------------------

/// One field of an embed.
#[derive(Debug, Clone)]
pub struct EmbedField {
    pub name: String,
    pub value: String,
    pub inline: bool,
}

/// A compact text announcement of a match.
#[derive(Debug, Clone)]
pub struct FallbackEmbed {
    pub title: String,
    pub color: u32,
    pub fields: Vec<EmbedField>,
}

/// Icon, outcome word and colour of the announcement.
pub open spec fn outcome_of(info: InfoDto, win: bool) -> (Seq<char>, Seq<char>, u32) {
    if info.game_ended_in_early_surrender {
        ("\u{1f504}"@, "Remake"@, 0x9AA2AD)
    } else if win {
        ("\u{1f3c6}"@, "Victory"@, 0x3BA55D)
    } else {
        ("\u{1f480}"@, "Defeat"@, 0xE84057)
    }
}

/// The field `name` holds `value`.
pub open spec fn field_is(f: EmbedField, name: Seq<char>, value: Seq<char>, inline: bool) -> bool {
    f.name@ == name && f.value@ == value && f.inline == inline
}

/// The text announcement of `player`'s match `info`, where they played as
/// `p` and stand at `new_rank` afterwards.
pub open spec fn fallback_embed_is(
    e: FallbackEmbed,
    player: Player,
    p: ParticipantDto,
    info: InfoDto,
    new_rank: Option<RankInfo>,
) -> bool {
    let (icon, outcome, color) = outcome_of(info, p.win);
    let kda = kda_ratio_of(p);
    let base = seq![
        ("Champion"@, p.champion_name@),
        (
            "KDA"@,
            signed_decimal(p.kills as int) + "/"@ + signed_decimal(p.deaths as int) + "/"@
                + signed_decimal(p.assists as int) + " ("@ + f64_ratio_text(
                kda.num as int,
                kda.den as int,
                2,
            ) + ")"@,
        ),
        ("Queue"@, queue_name_of(info.queue_id) + " \u{b7} "@ + duration_text(info.game_duration as int)),
    ];
    &&& e.title@ == icon + " "@ + outcome + " \u{2014} "@ + player.game_name@ + "#"@
        + player.tag_line@
    &&& e.color == color
    &&& e.fields@.len() == if new_rank is Some {
        4int
    } else {
        3int
    }
    &&& forall|i: int| 0 <= i < 3 ==> field_is(#[trigger] e.fields@[i], base[i].0, base[i].1, true)
    &&& new_rank matches Some(r) ==> field_is(
        e.fields@[3],
        "Rank"@,
        display_tier_of(r) + " \u{b7} "@ + signed_decimal(r.lp as int) + " LP"@,
        true,
    )
}

/// The text announcement of the match of a card context.
pub open spec fn fallback_is(e: FallbackEmbed, ctx: MatchImageContext) -> bool {
    fallback_embed_is(
        e,
        *ctx.player,
        *ctx.participant,
        *ctx.match_info,
        match ctx.new_rank {
            Some(r) => Some(*r),
            None => None,
        },
    )
}

fn field(name: &str, value: String) -> (f: EmbedField)
    ensures
        field_is(f, name@, value@, true),
{
    EmbedField { name: string_of(name), value, inline: true }
}

/// The text announcement used when the card cannot be rendered, so a
/// tracked match is still announced.
pub fn build_fallback_embed(ctx: &MatchImageContext) -> (e: FallbackEmbed)
    requires
        kill_assist_fits(*ctx.participant),
    ensures
        fallback_is(e, *ctx),
{
    let p = ctx.participant;
    let info = ctx.match_info;
    let (icon, outcome, color): (&str, &str, u32) = if info.game_ended_in_early_surrender {
        ("\u{1f504}", "Remake", 0x9AA2AD)
    } else if p.win {
        ("\u{1f3c6}", "Victory", 0x3BA55D)
    } else {
        ("\u{1f480}", "Defeat", 0xE84057)
    };
    let mut title = string_of(icon);
    push_str(&mut title, " ");
    push_str(&mut title, outcome);
    push_str(&mut title, " \u{2014} ");
    let riot_id = ctx.player.riot_id();
    let ghost head = title@;
    push_str(&mut title, riot_id.as_str());
    assert(title@ =~= head + ctx.player.game_name@ + "#"@ + ctx.player.tag_line@);
    let kda = p.kda_ratio();
    let mut kda_text = String::new();
    push_signed(&mut kda_text, p.kills as i64);
    push_str(&mut kda_text, "/");
    push_signed(&mut kda_text, p.deaths as i64);
    push_str(&mut kda_text, "/");
    push_signed(&mut kda_text, p.assists as i64);
    push_str(&mut kda_text, " (");
    let ratio = f64_ratio_string(kda.num, kda.den, 2);
    push_str(&mut kda_text, ratio.as_str());
    push_str(&mut kda_text, ")");
    let mut queue = string_of(info.queue_name());
    push_str(&mut queue, " \u{b7} ");
    let d = info.duration_formatted();
    push_str(&mut queue, d.as_str());
    let mut fields: Vec<EmbedField> = Vec::new();
    fields.push(field("Champion", p.champion_name.clone()));
    fields.push(field("KDA", kda_text));
    fields.push(field("Queue", queue));
    if let Some(rank) = ctx.new_rank {
        let mut value = rank.display_tier();
        push_str(&mut value, " \u{b7} ");
        push_signed(&mut value, rank.lp as i64);
        push_str(&mut value, " LP");
        fields.push(field("Rank", value));
    }
    let e = FallbackEmbed { title, color, fields };
    assert(field_is(e.fields@[0], "Champion"@, p.champion_name@, true));
    assert(field_is(e.fields@[1], "KDA"@, kda_text@, true));
    assert(field_is(e.fields@[2], "Queue"@, queue@, true));
    e
}

// ----------------------------------------------------------------------------
// One poll of a player, as a state machine
// ----------------------------------------------------------------------------

/// A new match being announced, once its standings are known.
#[derive(Debug)]
pub struct Announce {
    pub match_id: String,
    pub info: InfoDto,
    /// Index of the player among the match's participants.
    pub idx: usize,
    /// Stored standing in the match's ranked queue, before the match.
    pub old_rank: Option<RankInfo>,
    /// Fresh Solo/Duo and Flex standings.
    pub solo: Option<RankInfo>,
    pub flex: Option<RankInfo>,
}

/// Where a poll of one player stands.
#[derive(Debug)]
pub enum PollState {
    /// Waiting for the player's latest match ids.
    Start,
    /// Waiting for the details of a new match.
    AwaitMatch { match_id: String },
    /// Waiting for the player's league entries.
    AwaitLeagues { match_id: String, info: InfoDto, idx: usize },
    /// Waiting for the result to be recorded for the streak history.
    AwaitRecord(Announce),
    /// Waiting for the card to be rendered.
    AwaitRender(Announce),
    /// Waiting for the announcement to be sent.
    AwaitSent { match_id: String, solo: Option<RankInfo>, flex: Option<RankInfo> },
    /// The poll is over.
    Done,
}

/// What the outside world answered.
#[derive(Debug)]
pub enum PollEvent {
    /// The player's latest match ids, newest first.
    MatchIds(Vec<String>),
    /// The details of the match asked for.
    Match(InfoDto),
    /// The player's league entries.
    LeagueEntries(Vec<LeagueEntryDto>),
    /// The result was recorded (or recording failed, which is only logged).
    Recorded,
    /// Whether the card was rendered.
    Rendered(bool),
    /// The announcement was sent to the servers tracking the player.
    Sent,
}

/// What to do next.
#[derive(Debug)]
pub enum PollAction {
    /// Nothing more to do: no new match, or an answer out of turn.
    Stop,
    /// Fetch the details of this match.
    FetchMatch(String),
    /// The match's queue is not announced: store it as the last match and stop.
    MarkSeen(String),
    /// The player is not among the match's participants: fail, leaving the
    /// last match as it was.
    PlayerNotInMatch(String),
    /// Fetch the player's league entries.
    FetchLeagues,
    /// Record the result for the streak history.
    RecordResult { won: bool, queue_id: i32 },
    /// Render the card; `ranked` selects the streak bar (read the recent
    /// results) over the mastery block (fetch the champion mastery).
    Render { ranked: bool },
    /// Send the rendered card.
    SendCard,
    /// Send this text announcement instead of the card.
    SendFallback(FallbackEmbed),
    /// Store the last match and the fresh standings; the poll is over.
    Finish { last_match_id: String, solo: Option<RankInfo>, flex: Option<RankInfo> },
}

/// The poll states whose participant index points into the match.
pub open spec fn poll_state_wf(s: PollState) -> bool {
    match s {
        PollState::AwaitLeagues { info, idx, .. } => idx < info.participants.len(),
        PollState::AwaitRecord(a) => a.idx < a.info.participants.len(),
        PollState::AwaitRender(a) => a.idx < a.info.participants.len(),
        _ => true,
    }
}

/// The text announcement can be built when the card fails: the player's
/// kills + assists fit `i32`.
pub open spec fn poll_event_fits(s: PollState, e: PollEvent) -> bool {
    match (s, e) {
        (PollState::AwaitRender(a), PollEvent::Rendered(false)) => kill_assist_fits(
            a.info.participants@[a.idx as int],
        ),
        _ => true,
    }
}

/// Standing after the match in its ranked queue.
pub open spec fn rank_after_of(queue_id: i32, solo: Option<RankInfo>, flex: Option<RankInfo>) -> Option<
    RankInfo,
> {
    if queue_id == 420 {
        solo
    } else if queue_id == 440 {
        flex
    } else {
        None
    }
}

/// `i` is the first participant of `ps` with `puuid`.
pub open spec fn first_with_puuid(ps: Seq<ParticipantDto>, puuid: Seq<char>, i: int) -> bool {
    &&& 0 <= i < ps.len()
    &&& ps[i].puuid@ == puuid
    &&& forall|j: int| 0 <= j < i ==> #[trigger] ps[j].puuid@ != puuid
}

/// The announcement of `a` to render next.
pub open spec fn render_next(ns: PollState, act: PollAction, a: Announce) -> bool {
    &&& ns == PollState::AwaitRender(a)
    &&& act == PollAction::Render { ranked: a.info.queue_id == 420 || a.info.queue_id == 440 }
}

/// One step of a poll of `player`: from state `s` and answer `e`, the next
/// state `ns` and action `act`.
pub open spec fn poll_step_is(player: Player, s: PollState, e: PollEvent, ns: PollState, act: PollAction) -> bool {
    match (s, e) {
        (PollState::Start, PollEvent::MatchIds(ids)) => match match_to_process(
            match player.last_match_id {
                Some(l) => Some(l@),
                None => None,
            },
            ids@.map_values(|x: String| x@),
        ) {
            None => ns == PollState::Done && act == PollAction::Stop,
            Some(id) => {
                &&& ns matches PollState::AwaitMatch { match_id } && match_id@ == id
                &&& act matches PollAction::FetchMatch(m) && m@ == id
            },
        },
        (PollState::AwaitMatch { match_id }, PollEvent::Match(info)) => if !supported_queue(
            info.queue_id,
        ) {
            ns == PollState::Done && act == PollAction::MarkSeen(match_id)
        } else if exists|i: int| first_with_puuid(info.participants@, player.puuid@, i) {
            &&& ns matches PollState::AwaitLeagues { match_id: m, info: i2, idx }
            &&& m == match_id && i2 == info
            &&& first_with_puuid(info.participants@, player.puuid@, idx as int)
            &&& act == PollAction::FetchLeagues
        } else {
            ns == PollState::Done && act == PollAction::PlayerNotInMatch(match_id)
        },
        (PollState::AwaitLeagues { match_id, info, idx }, PollEvent::LeagueEntries(es)) => {
            let a = Announce {
                match_id,
                info,
                idx,
                old_rank: rank_before_of(player, info.queue_id),
                solo: ladder_ranks(es@).0,
                flex: ladder_ranks(es@).1,
            };
            if !info.game_ended_in_early_surrender {
                &&& ns == PollState::AwaitRecord(a)
                &&& act == PollAction::RecordResult {
                    won: info.participants@[idx as int].win,
                    queue_id: info.queue_id,
                }
            } else {
                render_next(ns, act, a)
            }
        },
        (PollState::AwaitRecord(a), PollEvent::Recorded) => render_next(ns, act, a),
        (PollState::AwaitRender(a), PollEvent::Rendered(ok)) => {
            &&& ns == PollState::AwaitSent { match_id: a.match_id, solo: a.solo, flex: a.flex }
            &&& if ok {
                act == PollAction::SendCard
            } else {
                act matches PollAction::SendFallback(emb) && fallback_embed_is(
                    emb,
                    player,
                    a.info.participants@[a.idx as int],
                    a.info,
                    rank_after_of(a.info.queue_id, a.solo, a.flex),
                )
            }
        },
        (PollState::AwaitSent { match_id, solo, flex }, PollEvent::Sent) => {
            &&& ns == PollState::Done
            &&& act == PollAction::Finish { last_match_id: match_id, solo, flex }
        },
        _ => ns == PollState::Done && act == PollAction::Stop,
    }
}

/// One step of a poll of `player`: what to do with the answer `event` in
/// state `state`. A new match is fetched, its queue checked, the player's
/// standings fetched, a real result (not a remake) recorded, the card
/// rendered, then sent, or replaced by a text announcement when rendering
/// failed, and finally the last match and standings are stored.
pub fn poll_step(player: &Player, state: PollState, event: PollEvent) -> (r: (PollState, PollAction))
    requires
        poll_state_wf(state),
        poll_event_fits(state, event),
    ensures
        poll_state_wf(r.0),
        poll_step_is(*player, state, event, r.0, r.1),
{
    match (state, event) {
        (PollState::Start, PollEvent::MatchIds(ids)) => match new_match_id(&player.last_match_id, &ids) {
            None => (PollState::Done, PollAction::Stop),
            Some(id) => {
                let m = id.clone();
                (PollState::AwaitMatch { match_id: id }, PollAction::FetchMatch(m))
            },
        },
        (PollState::AwaitMatch { match_id }, PollEvent::Match(info)) => {
            if !info.is_supported() {
                return (PollState::Done, PollAction::MarkSeen(match_id));
            }
            match find_participant(&info, player.puuid.as_str()) {
                Some(idx) => {
                    proof {
                        assert(first_with_puuid(info.participants@, player.puuid@, idx as int));
                    }
                    (PollState::AwaitLeagues { match_id, info, idx }, PollAction::FetchLeagues)
                },
                None => (PollState::Done, PollAction::PlayerNotInMatch(match_id)),
            }
        },
        (PollState::AwaitLeagues { match_id, info, idx }, PollEvent::LeagueEntries(es)) => {
            let old_rank = rank_before(player, &info);
            let (solo, flex) = rank_entries(&es);
            let remake = info.game_ended_in_early_surrender;
            let won = info.participants[idx].win;
            let queue_id = info.queue_id;
            let a = Announce { match_id, info, idx, old_rank, solo, flex };
            if !remake {
                (PollState::AwaitRecord(a), PollAction::RecordResult { won, queue_id })
            } else {
                (PollState::AwaitRender(a), PollAction::Render { ranked: queue_id == 420 || queue_id == 440 })
            }
        },
        (PollState::AwaitRecord(a), PollEvent::Recorded) => {
            let ranked = a.info.queue_id == 420 || a.info.queue_id == 440;
            (PollState::AwaitRender(a), PollAction::Render { ranked })
        },
        (PollState::AwaitRender(a), PollEvent::Rendered(ok)) => {
            let act = if ok {
                PollAction::SendCard
            } else {
                let ctx = MatchImageContext {
                    player,
                    participant: &a.info.participants[a.idx],
                    match_info: &a.info,
                    old_rank: a.old_rank.as_ref(),
                    new_rank: rank_after(&a.info, &a.solo, &a.flex),
                    streak: Vec::new(),
                    mastery: None,
                };
                PollAction::SendFallback(build_fallback_embed(&ctx))
            };
            (PollState::AwaitSent { match_id: a.match_id, solo: a.solo, flex: a.flex }, act)
        },
        (PollState::AwaitSent { match_id, solo, flex }, PollEvent::Sent) => {
            (PollState::Done, PollAction::Finish { last_match_id: match_id, solo, flex })
        },
        _ => (PollState::Done, PollAction::Stop),
    }
}

/// The queues announced are Normal Draft (400), Ranked Solo/Duo (420),
/// Normal Blind (430), Ranked Flex (440), ARAM (450) and Quickplay (490):
/// a new match in one of them that the player took part in goes on to
/// have the player's standings fetched, while a match in any other queue is
/// only marked as seen.
pub proof fn lemma_announced_queues(player: Player, match_id: String, info: InfoDto, ns: PollState, act: PollAction)
    requires
        poll_step_is(player, PollState::AwaitMatch { match_id }, PollEvent::Match(info), ns, act),
    ensures
        (info.queue_id == 400 || info.queue_id == 420 || info.queue_id == 430 || info.queue_id
            == 440 || info.queue_id == 450 || info.queue_id == 490) && (exists|i: int|
            first_with_puuid(info.participants@, player.puuid@, i)) ==> act == PollAction::FetchLeagues,
        !(info.queue_id == 400 || info.queue_id == 420 || info.queue_id == 430 || info.queue_id
            == 440 || info.queue_id == 450 || info.queue_id == 490) ==> act == PollAction::MarkSeen(
            match_id,
        ),
{
}

/// A render outage never stalls tracking: when the card cannot be rendered
/// the match is announced as text, and once that is sent the poll stores
/// the match as the last one together with the fresh standings.
pub proof fn lemma_render_failure_still_announces(player: Player, a: Announce, s1: PollState, act1: PollAction, s2: PollState, act2: PollAction)
    requires
        poll_step_is(player, PollState::AwaitRender(a), PollEvent::Rendered(false), s1, act1),
        poll_step_is(player, s1, PollEvent::Sent, s2, act2),
    ensures
        act1 is SendFallback,
        act2 == (PollAction::Finish { last_match_id: a.match_id, solo: a.solo, flex: a.flex }),
        s2 == PollState::Done,
{
}

// ----------------------------------------------------------------------------
// League-points alerts
// ----------------------------------------------------------------------------

/// What an alert for a finished match needs.
#[derive(Debug, Clone, Copy, PartialEq, Eq, Structural)]
pub enum AlertPlan {
    /// A ranked queue: fetch its league entry and the cached LP first.
    WithLeague(QueueType),
    /// A tracked unranked queue: alert without league data.
    WithoutLeague,
    /// A queue the tracker does not announce.
    Skip,
}

/// The alert plan of a queue type.
pub open spec fn alert_plan_of(q: QueueType) -> AlertPlan {
    match q {
        QueueType::SoloDuo => AlertPlan::WithLeague(QueueType::SoloDuo),
        QueueType::Flex => AlertPlan::WithLeague(QueueType::Flex),
        QueueType::NormalDraft | QueueType::Aram => AlertPlan::WithoutLeague,
        QueueType::Unhandled => AlertPlan::Skip,
    }
}

/// How to alert for a match of queue type `q`.
pub fn alert_plan(q: QueueType) -> (r: AlertPlan)
    ensures
        r == alert_plan_of(q),
{
    match q {
        QueueType::SoloDuo => AlertPlan::WithLeague(QueueType::SoloDuo),
        QueueType::Flex => AlertPlan::WithLeague(QueueType::Flex),
        QueueType::NormalDraft | QueueType::Aram => AlertPlan::WithoutLeague,
        QueueType::Unhandled => AlertPlan::Skip,
    }
}

/// The entry of a ranked ladder among a player's league entries: the first
/// one of the queue.
pub fn league_of(leagues: &Vec<LeagueEntryDto>, q: QueueType) -> (r: Option<usize>)
    ensures
        match r {
            Some(i) => i < leagues@.len() && leagues@[i as int].queue_type@ == crate::types::queue_type_name(q)
                && forall|j: int|
                0 <= j < i ==> #[trigger] leagues@[j].queue_type@ != crate::types::queue_type_name(q),
            None => forall|j: int|
                0 <= j < leagues@.len() ==> #[trigger] leagues@[j].queue_type@
                    != crate::types::queue_type_name(q),
        },
{
    let name = q.as_str();
    let mut i: usize = 0;
    while i < leagues.len()
        invariant
            i <= leagues@.len(),
            name@ == crate::types::queue_type_name(q),
            forall|j: int|
                0 <= j < i ==> #[trigger] leagues@[j].queue_type@ != crate::types::queue_type_name(q),
        decreases leagues.len() - i,
    {
        if str_eq(leagues[i].queue_type.as_str(), name) {
            return Some(i);
        }
        i += 1;
    }
    None
}

} // verus!

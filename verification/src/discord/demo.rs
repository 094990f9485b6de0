//! The sample match behind the owner-only test alert: a full 5v5 around a
//! fixed player, in the queue, outcome and remake state asked for.
use vstd::prelude::*;

use crate::db::models::{Player, RankInfo};
use crate::discord::image_gen::MasteryInfo;
use crate::riot::types::{
    InfoDto, ObjectiveCountDto, ObjectivesDto, ParticipantDto, PerkSelectionDto, PerkStyleDto,
    PerksDto, TeamDto,
};
use crate::text::string_of;

verus! {

/// Queue offered by the test-alert command.
#[derive(Debug, Clone, Copy, PartialEq, Eq, Structural)]
pub enum TestQueueType {
    NormalBlind,
    NormalDraft,
    Quickplay,
    RankedSolo,
    RankedFlex,
    Aram,
}

/// Queue id of a test queue.
pub open spec fn test_queue_id(q: TestQueueType) -> i32 {
    match q {
        TestQueueType::NormalBlind => 430,
        TestQueueType::NormalDraft => 400,
        TestQueueType::Quickplay => 490,
        TestQueueType::RankedSolo => 420,
        TestQueueType::RankedFlex => 440,
        TestQueueType::Aram => 450,
    }
}

impl TestQueueType {
    /// The match-v5 queue id (`RankedSolo` -> 420).
    pub fn queue_id(self) -> (r: i32)
        ensures
            r == test_queue_id(self),
    {
        match self {
            TestQueueType::NormalBlind => 430,
            TestQueueType::NormalDraft => 400,
            TestQueueType::Quickplay => 490,
            TestQueueType::RankedSolo => 420,
            TestQueueType::RankedFlex => 440,
            TestQueueType::Aram => 450,
        }
    }
}

/// A sample participant with only the headline stats set (vision score 20,
/// level 16, everything else zero or empty).
pub open spec fn demo_participant_is(
    p: ParticipantDto,
    puuid: Seq<char>,
    team_id: i32,
    position: Seq<char>,
    champion: Seq<char>,
    win: bool,
    kills: i32,
    deaths: i32,
    assists: i32,
    damage: i64,
    cs: i32,
    gold: i64,
) -> bool {
    &&& p.puuid@ == puuid
    &&& p.team_position@ == position
    &&& p.champion_name@ == champion
    &&& p.kills == kills && p.deaths == deaths && p.assists == assists
    &&& p.total_damage_dealt_to_champions == damage
    &&& p.total_minions_killed == cs && p.neutral_minions_killed == 0
    &&& p.vision_score == 20
    &&& p.gold_earned == gold
    &&& p.win == win
    &&& p.item0 == 0 && p.item1 == 0 && p.item2 == 0 && p.item3 == 0 && p.item4 == 0 && p.item5
        == 0 && p.item6 == 0
    &&& p.team_id == team_id
    &&& p.champ_level == 16
    &&& p.double_kills == 0 && p.triple_kills == 0 && p.quadra_kills == 0 && p.penta_kills == 0
    &&& p.summoner1_id == 0 && p.summoner2_id == 0
    &&& p.perks.styles@.len() == 0
    &&& p.wards_placed == 0 && p.wards_killed == 0 && p.detector_wards_placed == 0
}

/// A sample participant.
pub fn demo_participant(
    puuid: &str,
    team_id: i32,
    position: &str,
    champion: &str,
    win: bool,
    kills: i32,
    deaths: i32,
    assists: i32,
    damage: i64,
    cs: i32,
    gold: i64,
) -> (p: ParticipantDto)
    ensures
        demo_participant_is(
            p,
            puuid@,
            team_id,
            position@,
            champion@,
            win,
            kills,
            deaths,
            assists,
            damage,
            cs,
            gold,
        ),
{
    ParticipantDto {
        puuid: string_of(puuid),
        team_position: string_of(position),
        champion_name: string_of(champion),
        kills,
        deaths,
        assists,
        total_damage_dealt_to_champions: damage,
        total_minions_killed: cs,
        neutral_minions_killed: 0,
        vision_score: 20,
        gold_earned: gold,
        win,
        item0: 0,
        item1: 0,
        item2: 0,
        item3: 0,
        item4: 0,
        item5: 0,
        item6: 0,
        team_id,
        champ_level: 16,
        double_kills: 0,
        triple_kills: 0,
        quadra_kills: 0,
        penta_kills: 0,
        summoner1_id: 0,
        summoner2_id: 0,
        perks: PerksDto { styles: Vec::new() },
        wards_placed: 0,
        wards_killed: 0,
        detector_wards_placed: 0,
    }
}

/// A team's objective tally.
pub fn objectives(dragon: i32, baron: i32, tower: i32) -> (o: ObjectivesDto)
    ensures
        o.dragon.kills == dragon,
        o.baron.kills == baron,
        o.tower.kills == tower,
{
    ObjectivesDto {
        dragon: ObjectiveCountDto { kills: dragon },
        baron: ObjectiveCountDto { kills: baron },
        tower: ObjectiveCountDto { kills: tower },
    }
}

/// Everything a test card is built from.
pub struct DemoScene {
    pub player: Player,
    pub participant: ParticipantDto,
    pub match_info: InfoDto,
    pub old_rank: Option<RankInfo>,
    pub new_rank: Option<RankInfo>,
    pub streak: Vec<bool>,
    pub mastery: Option<MasteryInfo>,
}

/// A lane position, blank in ARAM.
pub open spec fn lane(pos: Seq<char>, aram: bool) -> Seq<char> {
    if aram {
        ""@
    } else {
        pos
    }
}

fn lane_of(pos: &'static str, aram: bool) -> (r: &'static str)
    ensures
        r@ == lane(pos@, aram),
{
    if aram {
        ""
    } else {
        pos
    }
}

/// A standing.
pub open spec fn rank_is(r: RankInfo, tier: Seq<char>, rank: Seq<char>, lp: i32, wins: Option<i32>, losses: Option<i32>) -> bool {
    r.tier@ == tier && r.rank@ == rank && r.lp == lp && r.wins == wins && r.losses == losses
}

fn rank(tier: &str, division: &str, lp: i32, wins: Option<i32>, losses: Option<i32>) -> (r: RankInfo)
    ensures
        rank_is(r, tier@, division@, lp, wins, losses),
{
    RankInfo { tier: string_of(tier), rank: string_of(division), lp, wins, losses }
}

/// The player's own line of the sample match.
pub open spec fn hero_is(me: ParticipantDto, aram: bool, w: bool) -> bool {
    &&& me.puuid@ == "test-puuid-12345"@
    &&& me.team_position@ == lane("MIDDLE"@, aram)
    &&& me.champion_name@ == "Ahri"@
    &&& me.kills == 8 && me.deaths == 3 && me.assists == 12
    &&& me.total_damage_dealt_to_champions == 28500
    &&& me.total_minions_killed == 185 && me.neutral_minions_killed == 12
    &&& me.vision_score == 42 && me.gold_earned == 12450 && me.win == w
    &&& me.item0 == 6655 && me.item1 == 3020 && me.item2 == 4645 && me.item3 == 3089 && me.item4
        == 3135 && me.item5 == 3157 && me.item6 == 3364
    &&& me.team_id == 100 && me.champ_level == 16
    &&& me.double_kills == 2 && me.triple_kills == 1 && me.quadra_kills == 0 && me.penta_kills == 0
    &&& me.summoner1_id == 4 && me.summoner2_id == 14
    &&& me.perks.styles@.len() == 2
    &&& me.perks.styles@[0].style == 8100 && me.perks.styles@[0].selections@.len() == 1
        && me.perks.styles@[0].selections@[0].perk == 8112
    &&& me.perks.styles@[1].style == 8200 && me.perks.styles@[1].selections@.len() == 0
    &&& me.wards_placed == 14 && me.wards_killed == 5 && me.detector_wards_placed == 8
}

/// The sample scene of a queue, outcome (`None`: a win) and remake state
/// (`None`: not a remake).
pub open spec fn demo_scene_is(s: DemoScene, queue: TestQueueType, win: bool, remake: bool) -> bool {
    let w = win;
    let aram = test_queue_id(queue) == 450;
    let ranked = test_queue_id(queue) == 420 || test_queue_id(queue) == 440;
    let ps = s.match_info.participants@;
    let me = s.participant;
    &&& s.player.id == 0 && s.player.puuid@ == "test-puuid-12345"@ && s.player.game_name@
        == "TestPlayer"@ && s.player.tag_line@ == "EUW"@ && s.player.region@ == "EUW1"@
    &&& s.player.last_match_id is None
    &&& s.player.last_rank_solo_tier matches Some(t) && t@ == "GOLD"@
    &&& s.player.last_rank_solo_rank matches Some(r) && r@ == "II"@
    &&& s.player.last_rank_solo_lp == Some(45i32)
    &&& s.player.last_rank_flex_tier matches Some(t) && t@ == "SILVER"@
    &&& s.player.last_rank_flex_rank matches Some(r) && r@ == "I"@
    &&& s.player.last_rank_flex_lp == Some(75i32)
    &&& s.match_info.queue_id == test_queue_id(queue)
    &&& s.match_info.game_ended_in_early_surrender == remake
    &&& s.match_info.game_duration == if remake {
        180i64
    } else {
        1847i64
    }
    &&& s.match_info.game_version@ == "14.24.632.8043"@
    &&& hero_is(me, aram, w)
    &&& hero_is(ps[0], aram, w)
    &&& ps.len() == 10
        &&& demo_participant_is(
            ps[1],
            "blue-top"@,
            100,
            lane("TOP"@, aram),
            "Garen"@,
            w,
            5,
            4,
            7,
            18000,
            210,
            11000,
        )
        &&& demo_participant_is(
            ps[2],
            "blue-jgl"@,
            100,
            lane("JUNGLE"@, aram),
            "LeeSin"@,
            w,
            6,
            5,
            11,
            16000,
            150,
            10500,
        )
        &&& demo_participant_is(
            ps[3],
            "blue-bot"@,
            100,
            lane("BOTTOM"@, aram),
            "Jinx"@,
            w,
            11,
            3,
            9,
            32000,
            240,
            13500,
        )
        &&& demo_participant_is(
            ps[4],
            "blue-sup"@,
            100,
            lane("UTILITY"@, aram),
            "Thresh"@,
            w,
            2,
            6,
            21,
            9000,
            35,
            8500,
        )
        &&& demo_participant_is(
            ps[5],
            "red-mid"@,
            200,
            lane("MIDDLE"@, aram),
            "Zed"@,
            !w,
            7,
            8,
            5,
            24000,
            195,
            11800,
        )
        &&& demo_participant_is(
            ps[6],
            "red-top"@,
            200,
            lane("TOP"@, aram),
            "Darius"@,
            !w,
            6,
            7,
            4,
            21000,
            205,
            11200,
        )
        &&& demo_participant_is(
            ps[7],
            "red-jgl"@,
            200,
            lane("JUNGLE"@, aram),
            "Elise"@,
            !w,
            5,
            7,
            8,
            15000,
            140,
            9800,
        )
        &&& demo_participant_is(
            ps[8],
            "red-bot"@,
            200,
            lane("BOTTOM"@, aram),
            "Caitlyn"@,
            !w,
            9,
            6,
            6,
            30000,
            250,
            13000,
        )
        &&& demo_participant_is(
            ps[9],
            "red-sup"@,
            200,
            lane("UTILITY"@, aram),
            "Lulu"@,
            !w,
            3,
            6,
            14,
            8500,
            40,
            8200,
        )
    &&& s.match_info.teams@.len() == 2
    &&& s.match_info.teams@[0].team_id == 100 && s.match_info.teams@[0].objectives.dragon.kills == 3
        && s.match_info.teams@[0].objectives.baron.kills == 1
        && s.match_info.teams@[0].objectives.tower.kills == 8
    &&& s.match_info.teams@[1].team_id == 200 && s.match_info.teams@[1].objectives.dragon.kills == 2
        && s.match_info.teams@[1].objectives.baron.kills == 0
        && s.match_info.teams@[1].objectives.tower.kills == 4
    &&& if test_queue_id(queue) == 420 {
        &&& s.old_rank matches Some(o) && rank_is(o, "GOLD"@, "II"@, 45, None, None)
        &&& s.new_rank matches Some(n) && rank_is(
            n,
            "GOLD"@,
            "II"@,
            if w { 67 } else { 28 },
            Some(if w { 33i32 } else { 32i32 }),
            Some(if w { 23i32 } else { 24i32 }),
        )
    } else if test_queue_id(queue) == 440 {
        &&& s.old_rank matches Some(o) && rank_is(o, "SILVER"@, "I"@, 75, None, None)
        &&& s.new_rank matches Some(n) && rank_is(
            n,
            if w { "GOLD"@ } else { "SILVER"@ },
            if w { "IV"@ } else { "I"@ },
            if w { 15 } else { 58 },
            Some(if w { 18i32 } else { 17i32 }),
            Some(15i32),
        )
    } else {
        s.old_rank is None && s.new_rank is None
    }
    &&& s.streak@ == if ranked {
        seq![true, false, true, true, w]
    } else {
        Seq::empty()
    }
    &&& s.mastery == if ranked {
        None
    } else {
        Some(MasteryInfo { level: 7, points: 142_384 })
    }
}

fn hero(aram: bool, win: bool) -> (me: ParticipantDto)
    ensures
        hero_is(me, aram, win),
{
    let mut keystone: Vec<PerkSelectionDto> = Vec::new();
    keystone.push(PerkSelectionDto { perk: 8112 });
    let mut styles: Vec<PerkStyleDto> = Vec::new();
    styles.push(PerkStyleDto { style: 8100, selections: keystone });
    styles.push(PerkStyleDto { style: 8200, selections: Vec::new() });
    ParticipantDto {
        puuid: string_of("test-puuid-12345"),
        team_position: string_of(lane_of("MIDDLE", aram)),
        champion_name: string_of("Ahri"),
        kills: 8,
        deaths: 3,
        assists: 12,
        total_damage_dealt_to_champions: 28500,
        total_minions_killed: 185,
        neutral_minions_killed: 12,
        vision_score: 42,
        gold_earned: 12450,
        win,
        item0: 6655,
        item1: 3020,
        item2: 4645,
        item3: 3089,
        item4: 3135,
        item5: 3157,
        item6: 3364,
        team_id: 100,
        champ_level: 16,
        double_kills: 2,
        triple_kills: 1,
        quadra_kills: 0,
        penta_kills: 0,
        summoner1_id: 4,
        summoner2_id: 14,
        perks: PerksDto { styles },
        wards_placed: 14,
        wards_killed: 5,
        detector_wards_placed: 8,
    }
}

/// The sample scene of the test alert for `queue`; `win` defaults to a win
/// and `remake` to a finished game.
pub fn demo_scene(queue: TestQueueType, win: Option<bool>, remake: Option<bool>) -> (s: DemoScene)
    ensures
        demo_scene_is(
            s,
            queue,
            match win {
                Some(w) => w,
                None => true,
            },
            match remake {
                Some(r) => r,
                None => false,
            },
        ),
{
    let win = match win {
        Some(w) => w,
        None => true,
    };
    let remake = match remake {
        Some(r) => r,
        None => false,
    };
    let queue_id = queue.queue_id();
    let aram = queue_id == 450;
    let player = Player {
        id: 0,
        puuid: string_of("test-puuid-12345"),
        game_name: string_of("TestPlayer"),
        tag_line: string_of("EUW"),
        region: string_of("EUW1"),
        last_match_id: None,
        last_rank_solo_tier: Some(string_of("GOLD")),
        last_rank_solo_rank: Some(string_of("II")),
        last_rank_solo_lp: Some(45),
        last_rank_flex_tier: Some(string_of("SILVER")),
        last_rank_flex_rank: Some(string_of("I")),
        last_rank_flex_lp: Some(75),
    };
    let participant = hero(aram, win);
    let mut participants: Vec<ParticipantDto> = Vec::new();
    participants.push(hero(aram, win));
    participants.push(
        demo_participant("blue-top", 100, lane_of("TOP", aram), "Garen", win, 5, 4, 7, 18000, 210, 11000),
    );
    participants.push(
        demo_participant("blue-jgl", 100, lane_of("JUNGLE", aram), "LeeSin", win, 6, 5, 11, 16000, 150, 10500),
    );
    participants.push(
        demo_participant("blue-bot", 100, lane_of("BOTTOM", aram), "Jinx", win, 11, 3, 9, 32000, 240, 13500),
    );
    participants.push(
        demo_participant("blue-sup", 100, lane_of("UTILITY", aram), "Thresh", win, 2, 6, 21, 9000, 35, 8500),
    );
    participants.push(
        demo_participant("red-mid", 200, lane_of("MIDDLE", aram), "Zed", !win, 7, 8, 5, 24000, 195, 11800),
    );
    participants.push(
        demo_participant("red-top", 200, lane_of("TOP", aram), "Darius", !win, 6, 7, 4, 21000, 205, 11200),
    );
    participants.push(
        demo_participant("red-jgl", 200, lane_of("JUNGLE", aram), "Elise", !win, 5, 7, 8, 15000, 140, 9800),
    );
    participants.push(
        demo_participant("red-bot", 200, lane_of("BOTTOM", aram), "Caitlyn", !win, 9, 6, 6, 30000, 250, 13000),
    );
    participants.push(
        demo_participant("red-sup", 200, lane_of("UTILITY", aram), "Lulu", !win, 3, 6, 14, 8500, 40, 8200),
    );
    let mut teams: Vec<TeamDto> = Vec::new();
    teams.push(TeamDto { team_id: 100, objectives: objectives(3, 1, 8) });
    teams.push(TeamDto { team_id: 200, objectives: objectives(2, 0, 4) });
    let match_info = InfoDto {
        game_duration: if remake {
            180
        } else {
            1847
        },
        game_version: string_of("14.24.632.8043"),
        game_ended_in_early_surrender: remake,
        participants,
        queue_id,
        teams,
    };
    let (old_rank, new_rank) = if queue_id == 420 {
        (
            Some(rank("GOLD", "II", 45, None, None)),
            Some(
                rank(
                    "GOLD",
                    "II",
                    if win {
                        67
                    } else {
                        28
                    },
                    Some(
                        if win {
                            33
                        } else {
                            32
                        },
                    ),
                    Some(
                        if win {
                            23
                        } else {
                            24
                        },
                    ),
                ),
            ),
        )
    } else if queue_id == 440 {
        (
            Some(rank("SILVER", "I", 75, None, None)),
            Some(
                rank(
                    if win {
                        "GOLD"
                    } else {
                        "SILVER"
                    },
                    if win {
                        "IV"
                    } else {
                        "I"
                    },
                    if win {
                        15
                    } else {
                        58
                    },
                    Some(
                        if win {
                            18
                        } else {
                            17
                        },
                    ),
                    Some(15),
                ),
            ),
        )
    } else {
        (None, None)
    };
    let ranked = queue_id == 420 || queue_id == 440;
    let mut streak: Vec<bool> = Vec::new();
    if ranked {
        streak.push(true);
        streak.push(false);
        streak.push(true);
        streak.push(true);
        streak.push(win);
        assert(streak@ =~= seq![true, false, true, true, win]);
    } else {
        assert(streak@ =~= Seq::<bool>::empty());
    }
    let mastery = if ranked {
        None
    } else {
        Some(MasteryInfo { level: 7, points: 142_384 })
    };
    DemoScene { player, participant, match_info, old_rank, new_rank, streak, mastery }
}

} // verus!

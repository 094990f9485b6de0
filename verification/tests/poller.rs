use tentrackule::db::models::{Player, RankInfo};
use tentrackule::discord::image_gen::MatchImageContext;
use tentrackule::poller::{
    alert_plan, build_fallback_embed, find_participant, league_of, new_match_id, rank_after,
    poll_step, rank_before, rank_entries, AlertPlan, PollAction, PollEvent, PollState,
};
use tentrackule::riot::types::{InfoDto, LeagueEntryDto, ParticipantDto};
use tentrackule::types::QueueType;

fn player() -> Player {
    Player {
        id: 3,
        puuid: "me".into(),
        game_name: "Faker".into(),
        tag_line: "KR1".into(),
        region: "KR".into(),
        last_match_id: Some("KR_1".into()),
        last_rank_solo_tier: Some("GOLD".into()),
        last_rank_solo_rank: Some("II".into()),
        last_rank_solo_lp: Some(45),
        last_rank_flex_tier: None,
        last_rank_flex_rank: None,
        last_rank_flex_lp: None,
    }
}

fn info(queue_id: i32, remake: bool, participants: Vec<ParticipantDto>) -> InfoDto {
    InfoDto {
        game_duration: 1955,
        game_version: "14.24.1".into(),
        game_ended_in_early_surrender: remake,
        participants,
        queue_id,
        teams: Vec::new(),
    }
}

fn entry(queue: &str, tier: &str, lp: i32) -> LeagueEntryDto {
    LeagueEntryDto {
        queue_type: queue.into(),
        tier: tier.into(),
        rank: "I".into(),
        league_points: lp,
        wins: 10,
        losses: 9,
    }
}

#[test]
fn only_a_new_latest_match_is_processed() {
    let ids = vec!["KR_2".to_string(), "KR_1".to_string()];
    assert_eq!(new_match_id(&Some("KR_1".into()), &ids), Some("KR_2".to_string()));
    assert_eq!(new_match_id(&Some("KR_2".into()), &ids), None);
    assert_eq!(new_match_id(&None, &ids), Some("KR_2".to_string()));
    assert_eq!(new_match_id(&None, &Vec::new()), None);
}

#[test]
fn participant_lookup_and_standings() {
    let ps = vec![
        ParticipantDto { puuid: "a".into(), ..Default::default() },
        ParticipantDto { puuid: "me".into(), ..Default::default() },
        ParticipantDto { puuid: "me".into(), kills: 9, ..Default::default() },
    ];
    let solo_game = info(420, false, ps);
    assert_eq!(find_participant(&solo_game, "me"), Some(1));
    assert_eq!(find_participant(&solo_game, "zz"), None);

    let before = rank_before(&player(), &solo_game).expect("stored solo rank");
    assert_eq!((before.tier.as_str(), before.rank.as_str(), before.lp), ("GOLD", "II", 45));
    assert!(rank_before(&player(), &info(440, false, Vec::new())).is_none());
    assert!(rank_before(&player(), &info(430, false, Vec::new())).is_none());

    let entries = vec![
        entry("RANKED_FLEX_SR", "SILVER", 5),
        entry("RANKED_SOLO_5x5", "GOLD", 60),
        entry("CHERRY", "IRON", 1),
        entry("RANKED_SOLO_5x5", "PLATINUM", 2),
    ];
    let (solo, flex) = rank_entries(&entries);
    assert_eq!(solo.as_ref().map(|r| r.tier.as_str()), Some("PLATINUM"));
    assert_eq!(flex.as_ref().map(|r| (r.tier.as_str(), r.wins, r.losses)), Some(("SILVER", Some(10), Some(9))));
    assert_eq!(rank_after(&solo_game, &solo, &flex).map(|r| r.lp), Some(2));
    assert_eq!(rank_after(&info(440, false, Vec::new()), &solo, &flex).map(|r| r.lp), Some(5));
    assert!(rank_after(&info(450, false, Vec::new()), &solo, &flex).is_none());
    assert_eq!(league_of(&entries, QueueType::SoloDuo), Some(1));
    assert_eq!(league_of(&entries, QueueType::Flex), Some(0));
    assert_eq!(league_of(&Vec::new(), QueueType::Flex), None);
}

#[test]
fn alert_plans_by_queue() {
    assert_eq!(alert_plan(QueueType::SoloDuo), AlertPlan::WithLeague(QueueType::SoloDuo));
    assert_eq!(alert_plan(QueueType::Flex), AlertPlan::WithLeague(QueueType::Flex));
    assert_eq!(alert_plan(QueueType::Aram), AlertPlan::WithoutLeague);
    assert_eq!(alert_plan(QueueType::NormalDraft), AlertPlan::WithoutLeague);
    assert_eq!(alert_plan(QueueType::Unhandled), AlertPlan::Skip);
}

#[test]
fn fallback_embed_announces_the_match() {
    let me = ParticipantDto {
        puuid: "me".into(),
        champion_name: "Ahri".into(),
        kills: 8,
        deaths: 3,
        assists: 12,
        win: true,
        ..Default::default()
    };
    let game = info(420, false, vec![me]);
    let new_rank = RankInfo { tier: "GOLD".into(), rank: "II".into(), lp: 67, wins: None, losses: None };
    let player = player();
    let ctx = MatchImageContext {
        player: &player,
        participant: &game.participants[0],
        match_info: &game,
        old_rank: None,
        new_rank: Some(&new_rank),
        streak: Vec::new(),
        mastery: None,
    };
    let e = build_fallback_embed(&ctx);
    assert_eq!(e.title, "🏆 Victory — Faker#KR1");
    assert_eq!(e.color, 0x3BA55D);
    let fields: Vec<(&str, &str, bool)> =
        e.fields.iter().map(|f| (f.name.as_str(), f.value.as_str(), f.inline)).collect();
    assert_eq!(
        fields,
        vec![
            ("Champion", "Ahri", true),
            ("KDA", "8/3/12 (6.67)", true),
            ("Queue", "Ranked Solo/Duo · 32:35", true),
            ("Rank", "Gold II · 67 LP", true),
        ]
    );

    let remake = info(430, true, vec![ParticipantDto { win: true, ..Default::default() }]);
    let ctx = MatchImageContext {
        player: &player,
        participant: &remake.participants[0],
        match_info: &remake,
        old_rank: None,
        new_rank: None,
        streak: Vec::new(),
        mastery: None,
    };
    let e = build_fallback_embed(&ctx);
    assert_eq!(e.title, "🔄 Remake — Faker#KR1");
    assert_eq!(e.color, 0x9AA2AD);
    assert_eq!(e.fields.len(), 3);
    assert_eq!(e.fields[1].value, "0/0/0 (0.00)");
}

fn me(win: bool) -> ParticipantDto {
    ParticipantDto {
        puuid: "me".into(),
        champion_name: "Ahri".into(),
        kills: 8,
        deaths: 3,
        assists: 12,
        win,
        ..Default::default()
    }
}

#[test]
fn poll_announces_as_text_when_the_card_fails() {
    let p = player();
    let (s, a) = poll_step(&p, PollState::Start, PollEvent::MatchIds(vec!["KR_2".into(), "KR_1".into()]));
    assert!(matches!(&a, PollAction::FetchMatch(id) if id == "KR_2"));
    let (s, a) = poll_step(&p, s, PollEvent::Match(info(420, false, vec![me(true)])));
    assert!(matches!(a, PollAction::FetchLeagues));
    let (s, a) = poll_step(&p, s, PollEvent::LeagueEntries(vec![entry("RANKED_SOLO_5x5", "GOLD", 67)]));
    assert!(matches!(a, PollAction::RecordResult { won: true, queue_id: 420 }));
    let (s, a) = poll_step(&p, s, PollEvent::Recorded);
    assert!(matches!(a, PollAction::Render { ranked: true }));
    let (s, a) = poll_step(&p, s, PollEvent::Rendered(false));
    match a {
        PollAction::SendFallback(e) => {
            assert!(e.title.contains("Victory"));
            assert!(e.title.contains("Faker#KR1"));
            assert_eq!(e.fields.len(), 4);
            assert_eq!(e.fields[3].name, "Rank");
        }
        other => panic!("unexpected {other:?}"),
    }
    let (s, a) = poll_step(&p, s, PollEvent::Sent);
    match a {
        PollAction::Finish { last_match_id, solo, flex } => {
            assert_eq!(last_match_id, "KR_2");
            assert_eq!(solo.unwrap().lp, 67);
            assert!(flex.is_none());
        }
        other => panic!("unexpected {other:?}"),
    }
    assert!(matches!(s, PollState::Done));
}

#[test]
fn poll_sends_the_card_and_skips_recording_a_remake() {
    let p = player();
    let (s, _) = poll_step(&p, PollState::Start, PollEvent::MatchIds(vec!["KR_2".into()]));
    let (s, _) = poll_step(&p, s, PollEvent::Match(info(450, true, vec![me(false)])));
    let (s, a) = poll_step(&p, s, PollEvent::LeagueEntries(Vec::new()));
    assert!(matches!(a, PollAction::Render { ranked: false }));
    let (s, a) = poll_step(&p, s, PollEvent::Rendered(true));
    assert!(matches!(a, PollAction::SendCard));
    let (_, a) = poll_step(&p, s, PollEvent::Sent);
    assert!(matches!(a, PollAction::Finish { ref last_match_id, .. } if last_match_id == "KR_2"));
}

#[test]
fn poll_stops_or_marks_seen() {
    let p = player();
    // The latest match is the one already announced.
    let (s, a) = poll_step(&p, PollState::Start, PollEvent::MatchIds(vec!["KR_1".into()]));
    assert!(matches!(a, PollAction::Stop) && matches!(s, PollState::Done));
    // No match at all.
    let (_, a) = poll_step(&p, PollState::Start, PollEvent::MatchIds(Vec::new()));
    assert!(matches!(a, PollAction::Stop));
    // An unsupported queue is only marked as seen.
    let (s, _) = poll_step(&p, PollState::Start, PollEvent::MatchIds(vec!["KR_9".into()]));
    let (_, a) = poll_step(&p, s, PollEvent::Match(info(1700, false, vec![me(true)])));
    assert!(matches!(a, PollAction::MarkSeen(ref id) if id == "KR_9"));
    // The player missing from the match fails the poll.
    let (s, _) = poll_step(&p, PollState::Start, PollEvent::MatchIds(vec!["KR_9".into()]));
    let (_, a) = poll_step(&p, s, PollEvent::Match(info(420, false, Vec::new())));
    assert!(matches!(a, PollAction::PlayerNotInMatch(ref id) if id == "KR_9"));
    // An answer out of turn stops the poll.
    let (_, a) = poll_step(&p, PollState::Start, PollEvent::Sent);
    assert!(matches!(a, PollAction::Stop));
}

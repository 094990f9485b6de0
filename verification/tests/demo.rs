use tentrackule::discord::demo::{demo_participant, demo_scene, objectives, TestQueueType};

#[test]
fn test_queues_map_to_queue_ids() {
    assert_eq!(TestQueueType::NormalBlind.queue_id(), 430);
    assert_eq!(TestQueueType::NormalDraft.queue_id(), 400);
    assert_eq!(TestQueueType::Quickplay.queue_id(), 490);
    assert_eq!(TestQueueType::RankedSolo.queue_id(), 420);
    assert_eq!(TestQueueType::RankedFlex.queue_id(), 440);
    assert_eq!(TestQueueType::Aram.queue_id(), 450);
}

#[test]
fn ranked_solo_scene() {
    let s = demo_scene(TestQueueType::RankedSolo, None, None);
    assert_eq!(s.match_info.queue_id, 420);
    assert_eq!(s.match_info.participants.len(), 10);
    assert!(s.participant.win);
    assert_eq!(s.match_info.game_duration, 1847);
    assert_eq!(s.old_rank.as_ref().map(|r| r.lp), Some(45));
    let new = s.new_rank.as_ref().unwrap();
    assert_eq!((new.tier.as_str(), new.lp, new.wins, new.losses), ("GOLD", 67, Some(33), Some(23)));
    assert_eq!(s.streak, vec![true, false, true, true, true]);
    assert!(s.mastery.is_none());
}

#[test]
fn flex_loss_and_aram_remake_scenes() {
    let s = demo_scene(TestQueueType::RankedFlex, Some(false), None);
    let new = s.new_rank.as_ref().unwrap();
    assert_eq!((new.tier.as_str(), new.rank.as_str(), new.lp), ("SILVER", "I", 58));
    assert_eq!(s.streak, vec![true, false, true, true, false]);
    assert!(!s.match_info.participants[1].win);
    assert!(s.match_info.participants[5].win);

    let s = demo_scene(TestQueueType::Aram, Some(true), Some(true));
    assert!(s.match_info.game_ended_in_early_surrender);
    assert_eq!(s.match_info.game_duration, 180);
    assert_eq!(s.participant.team_position, "");
    assert!(s.match_info.participants.iter().all(|p| p.team_position.is_empty()));
    assert!(s.old_rank.is_none() && s.new_rank.is_none());
    assert!(s.streak.is_empty());
    assert_eq!(s.mastery.map(|m| (m.level, m.points)), Some((7, 142_384)));
}

#[test]
fn demo_building_blocks() {
    let p = demo_participant("x", 200, "TOP", "Darius", false, 6, 7, 4, 21_000, 205, 11_200);
    assert_eq!((p.team_id, p.kills, p.vision_score, p.champ_level), (200, 6, 20, 16));
    assert_eq!(p.team_position, "TOP");
    let o = objectives(3, 1, 8);
    assert_eq!((o.dragon.kills, o.baron.kills, o.tower.kills), (3, 1, 8));
}

use tentrackule::riot::league::MatchDtoWithLeagueInfo;
use tentrackule::riot::types::{InfoDto, LeagueEntryDto, MatchDto};

fn dummy_match() -> MatchDto {
    MatchDto {
        info: InfoDto {
            game_duration: 1800,
            game_version: "14.24.1".into(),
            game_ended_in_early_surrender: false,
            participants: Vec::new(),
            queue_id: 420,
            teams: Vec::new(),
        },
    }
}

fn dummy_league_entry(lp: i32) -> LeagueEntryDto {
    LeagueEntryDto {
        queue_type: "RANKED_SOLO_5x5".to_string(),
        tier: "GOLD".to_string(),
        rank: "IV".to_string(),
        league_points: lp,
        wins: 0,
        losses: 0,
    }
}

#[test]
fn league_difference_is_calculated() {
    let m = MatchDtoWithLeagueInfo::new(dummy_match(), Some(dummy_league_entry(100)), Some(90));
    assert_eq!(m.calculate_league_points_difference(true), Some(10));
}

#[test]
fn win_with_rank_up_adjusts_difference() {
    let m = MatchDtoWithLeagueInfo::new(dummy_match(), Some(dummy_league_entry(20)), Some(90));
    assert_eq!(m.calculate_league_points_difference(true), Some(30));
}

#[test]
fn loss_with_rank_down_adjusts_difference() {
    let m = MatchDtoWithLeagueInfo::new(dummy_match(), Some(dummy_league_entry(80)), Some(20));
    assert_eq!(m.calculate_league_points_difference(false), Some(-40));
}

#[test]
fn returns_none_when_data_missing() {
    let with_no_league = MatchDtoWithLeagueInfo::new(dummy_match(), None, Some(90));
    assert_eq!(with_no_league.calculate_league_points_difference(true), None);
    let with_no_cached =
        MatchDtoWithLeagueInfo::new(dummy_match(), Some(dummy_league_entry(100)), None);
    assert_eq!(with_no_cached.calculate_league_points_difference(true), None);
}

#[test]
fn unchanged_lp_is_zero_either_way() {
    let m = MatchDtoWithLeagueInfo::new(dummy_match(), Some(dummy_league_entry(50)), Some(50));
    assert_eq!(m.calculate_league_points_difference(true), Some(0));
    assert_eq!(m.calculate_league_points_difference(false), Some(0));
}

#[test]
fn shown_change_has_the_sign_of_the_result() {
    // Every pair of standings within one division: a win never reads as a
    // loss, a loss never as a gain.
    for new_lp in 0..=100 {
        for cached in 0..=100u16 {
            let m = MatchDtoWithLeagueInfo::new(
                dummy_match(),
                Some(dummy_league_entry(new_lp)),
                Some(cached),
            );
            assert!(m.calculate_league_points_difference(true).unwrap() >= 0);
            assert!(m.calculate_league_points_difference(false).unwrap() <= 0);
        }
    }
}

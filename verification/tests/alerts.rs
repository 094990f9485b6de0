use tentrackule::discord::alerts::{AlertSenderMessage, EmbedCreationError};
use tentrackule::riot::league::MatchDtoWithLeagueInfo;
use tentrackule::riot::types::{InfoDto, MatchDto};

#[test]
fn embed_error_names_the_missing_puuid() {
    let e = EmbedCreationError::PuuidNotInMatch { puuid: "other".into() };
    assert_eq!(e.message(), "The specified PUUID focus \"other\" isn't part of the match.");
    assert!(e.message().contains("isn't part of the match"));
    // Special characters are escaped as `{:?}` does.
    let e = EmbedCreationError::PuuidNotInMatch { puuid: "a\"b".into() };
    assert_eq!(e.message(), "The specified PUUID focus \"a\\\"b\" isn't part of the match.");
}

#[test]
fn alert_message_carries_the_match() {
    let m = MatchDto {
        info: InfoDto {
            game_duration: 1800,
            game_version: "14.24.1".into(),
            game_ended_in_early_surrender: false,
            participants: Vec::new(),
            queue_id: 420,
            teams: Vec::new(),
        },
    };
    let msg = AlertSenderMessage::DispatchNewAlert {
        puuid: "p1".into(),
        match_data: MatchDtoWithLeagueInfo::new(m, None, Some(40)),
    };
    match msg {
        AlertSenderMessage::DispatchNewAlert { puuid, match_data } => {
            assert_eq!(puuid, "p1");
            assert_eq!(match_data.cached_league_points, Some(40));
            assert_eq!(match_data.match_data.info.queue_id, 420);
        }
    }
}

use tentrackule::db::models::Player;
use tentrackule::discord::replies::{
    already_tracked_text, channel_embed, command_error_text, list_reply, shown_riot_id,
    tracked_embed, untracked_embed, Reply,
};
use tentrackule::error::AppError;
use tentrackule::riot::region::Platform;
use tentrackule::riot::types::AccountDto;

fn player(name: &str, tag: &str, region: &str) -> Player {
    Player {
        id: 1,
        puuid: "p".into(),
        game_name: name.into(),
        tag_line: tag.into(),
        region: region.into(),
        last_match_id: None,
        last_rank_solo_tier: None,
        last_rank_solo_rank: None,
        last_rank_solo_lp: None,
        last_rank_flex_tier: None,
        last_rank_flex_rank: None,
        last_rank_flex_lp: None,
    }
}

#[test]
fn list_reply_is_a_hint_or_an_embed() {
    match list_reply(&Vec::new()) {
        Reply::Text(t) => {
            assert_eq!(t, "No players are being tracked in this server.\nUse `/track` to add players.")
        }
        Reply::Embed(_) => panic!("expected the empty-list hint"),
    }
    let players = vec![player("Faker", "KR1", "kr"), player("Caps", "EUW", "euw1")];
    match list_reply(&players) {
        Reply::Embed(e) => {
            assert_eq!(e.title, "Tracked Players (2)");
            assert_eq!(e.description, "- **Faker#KR1** (KR)\n- **Caps#EUW** (EUW1)\n");
            assert_eq!(e.color, 0x0099ff);
            assert!(e.fields.is_empty());
        }
        Reply::Text(_) => panic!("expected an embed"),
    }
}

#[test]
fn track_replies() {
    let account = AccountDto { puuid: "abcdefghijkl".into(), game_name: Some("FAKER".into()), tag_line: None };
    let (g, t) = shown_riot_id(&account, "faker", "kr1");
    assert_eq!((g.as_str(), t.as_str()), ("FAKER", "kr1"));
    assert_eq!(already_tracked_text("Faker", "KR1"), "**Faker#KR1** is already being tracked in this server.");
    let e = tracked_embed("Faker", "KR1", Platform::KR, "abcdefghijkl");
    assert_eq!(e.title, "Player Tracked");
    assert_eq!(e.description, "Now tracking **Faker#KR1** on **Korea**");
    assert_eq!(e.color, 0x00ff00);
    assert_eq!(e.fields[0].value, "abcdefgh");
    assert_eq!(e.fields[1].name, "Region");
    assert_eq!(e.fields[1].value, "KR");
}

#[test]
fn untrack_and_channel_replies() {
    let e = untracked_embed(&player("Caps", "EUW", "euw1"));
    assert_eq!(e.title, "Player Untracked");
    assert_eq!(e.description, "Stopped tracking **Caps#EUW**");
    assert_eq!(e.color, 0xff6600);
    let c = channel_embed("<#42>");
    assert_eq!(c.title, "Configuration Updated");
    assert_eq!(c.description, "Game alerts will now be sent to <#42>");
}

#[test]
fn every_error_has_its_text() {
    let cases = [
        (AppError::RiotApi { status: 429, message: "slow down".into() }, "Error: Riot API error: 429 - slow down"),
        (
            AppError::PlayerNotFound { game_name: "Faker".into(), tag_line: "KR1".into() },
            "Error: Player not found: Faker#KR1",
        ),
        (AppError::InvalidRegion("mars".into()), "Error: Invalid region: mars"),
        (AppError::Config("Must be used in a guild".into()), "Error: Configuration error: Must be used in a guild"),
        (AppError::PlayerNotTracked, "Error: Player not tracked in this server"),
        (AppError::ImageGeneration { message: "renderer not configured".into() }, "Error: Image generation error: renderer not configured"),
    ];
    for (e, text) in cases {
        assert_eq!(command_error_text(&e), text);
    }
}

#[test]
fn tracked_embed_shows_the_first_eight_bytes_of_the_puuid() {
    // Four two-byte characters make the first eight bytes.
    let e = tracked_embed("A", "B", Platform::EUW1, "ééééxyz");
    assert_eq!(e.fields[0].value, "éééé");
    let e = tracked_embed("A", "B", Platform::EUW1, "12345678-rest");
    assert_eq!(e.fields[0].value, "12345678");
}

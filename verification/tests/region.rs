use tentrackule::db::columns::player_columns;
use tentrackule::db::models::{Player, RankInfo};
use tentrackule::error::AppError;
use tentrackule::riot::region::{Platform, Region};

#[test]
fn platforms_parse_case_insensitively() {
    assert_eq!(Platform::parse("euw").unwrap(), Platform::EUW1);
    assert_eq!(Platform::parse("EUW1").unwrap(), Platform::EUW1);
    assert_eq!(Platform::parse("kr").unwrap(), Platform::KR);
    assert_eq!(Platform::parse("mars"), Err(AppError::InvalidRegion("mars".into())));
    let p: Platform = "na1".parse().unwrap();
    assert_eq!(p, Platform::NA1);
}

#[test]
fn platform_routing_and_labels() {
    assert_eq!(Platform::EUW1.as_str(), "euw1");
    assert_eq!(Platform::EUW1.base_url(), "https://euw1.api.riotgames.com");
    assert_eq!(Platform::EUW1.to_region(), Region::Europe);
    assert_eq!(Platform::KR.to_region(), Region::Asia);
    assert_eq!(Platform::KR.display_name(), "Korea");
    assert_eq!(Region::Americas.base_url(), "https://americas.api.riotgames.com");
    assert_eq!(Region::Sea.as_str(), "sea");
}

#[test]
fn player_rows() {
    let p = Player {
        id: 1,
        puuid: "p".into(),
        game_name: "Caps".into(),
        tag_line: "EUW".into(),
        region: "EUW1".into(),
        last_match_id: None,
        last_rank_solo_tier: Some("EMERALD".into()),
        last_rank_solo_rank: Some("IV".into()),
        last_rank_solo_lp: Some(63),
        last_rank_flex_tier: Some("GOLD".into()),
        last_rank_flex_rank: None,
        last_rank_flex_lp: Some(1),
    };
    assert_eq!(p.riot_id(), "Caps#EUW");
    let solo = p.solo_rank_info().unwrap();
    assert_eq!(solo.display_tier(), "Emerald IV");
    assert_eq!(solo.wins, None);
    assert!(p.flex_rank_info().is_none());
    let r = RankInfo { tier: "grandmaster".into(), rank: "I".into(), lp: 0, wins: None, losses: None };
    assert_eq!(r.display_tier(), "Grandmaster I");
    assert_eq!(
        player_columns(Some("p")),
        "p.id, p.puuid, p.game_name, p.tag_line, p.region, p.last_match_id, p.last_rank_solo_tier, p.last_rank_solo_rank, p.last_rank_solo_lp, p.last_rank_flex_tier, p.last_rank_flex_rank, p.last_rank_flex_lp"
    );
    assert!(player_columns(None).starts_with("id, puuid, game_name"));
}

#[test]
fn every_label_parses_back_to_its_platform() {
    let all = [
        Platform::BR1,
        Platform::LA1,
        Platform::LA2,
        Platform::NA1,
        Platform::JP1,
        Platform::KR,
        Platform::EUN1,
        Platform::EUW1,
        Platform::ME1,
        Platform::RU,
        Platform::TR1,
        Platform::OC1,
        Platform::PH2,
        Platform::SG2,
        Platform::TH2,
        Platform::TW2,
        Platform::VN2,
    ];
    for p in all {
        assert_eq!(Platform::parse(&p.to_display_string()).ok(), Some(p));
        assert_eq!(Platform::parse(p.as_str()).ok(), Some(p));
    }
}

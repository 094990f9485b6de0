use tentrackule::error::AppError;
use tentrackule::riot::endpoints::{
    account_lookup_error, account_url, api_error, league_entries_url, mastery_url, match_ids_url,
    match_url, summoner_url,
};
use tentrackule::riot::region::{Platform, Region};

#[test]
fn account_url_percent_encodes_the_riot_id() {
    assert_eq!(
        account_url(Region::Europe, "Hide on bush", "KR1"),
        "https://europe.api.riotgames.com/riot/account/v1/accounts/by-riot-id/Hide%20on%20bush/KR1"
    );
    assert_eq!(
        account_url(Region::Asia, "페이커", "a/b"),
        "https://asia.api.riotgames.com/riot/account/v1/accounts/by-riot-id/%ED%8E%98%EC%9D%B4%EC%BB%A4/a%2Fb"
    );
    assert_eq!(
        account_url(Region::Americas, "a-b_c.d~e", "X"),
        "https://americas.api.riotgames.com/riot/account/v1/accounts/by-riot-id/a-b_c.d~e/X"
    );
}

#[test]
fn other_urls() {
    assert_eq!(
        match_ids_url(Region::Europe, "pu", 1),
        "https://europe.api.riotgames.com/lol/match/v5/matches/by-puuid/pu/ids?count=1"
    );
    assert_eq!(match_url(Region::Sea, "VN2_1"), "https://sea.api.riotgames.com/lol/match/v5/matches/VN2_1");
    assert_eq!(
        league_entries_url(Platform::EUW1, "pu"),
        "https://euw1.api.riotgames.com/lol/league/v4/entries/by-puuid/pu"
    );
    assert_eq!(
        mastery_url(Platform::KR, "pu", 103),
        "https://kr.api.riotgames.com/lol/champion-mastery/v4/champion-masteries/by-puuid/pu/by-champion/103"
    );
    assert_eq!(
        summoner_url(Platform::NA1, "pu"),
        "https://na1.api.riotgames.com/lol/summoner/v4/summoners/by-puuid/pu"
    );
}

#[test]
fn unknown_account_becomes_player_not_found() {
    let e = account_lookup_error(api_error(404, "nope".into()), "Faker", "KR1");
    assert_eq!(e, AppError::PlayerNotFound { game_name: "Faker".into(), tag_line: "KR1".into() });
    let e = account_lookup_error(api_error(500, "boom".into()), "Faker", "KR1");
    assert_eq!(e, AppError::RiotApi { status: 500, message: "boom".into() });
    let e = account_lookup_error(AppError::PlayerNotTracked, "Faker", "KR1");
    assert_eq!(e, AppError::PlayerNotTracked);
}

#[test]
fn account_url_encodes_the_utf8_bytes_of_non_ascii_names() {
    assert_eq!(
        account_url(Region::Asia, "れいん", "01~a"),
        "https://asia.api.riotgames.com/riot/account/v1/accounts/by-riot-id/%E3%82%8C%E3%81%84%E3%82%93/01~a"
    );
    assert_eq!(
        account_url(Region::Europe, "Zoë", "EUW"),
        "https://europe.api.riotgames.com/riot/account/v1/accounts/by-riot-id/Zo%C3%AB/EUW"
    );
}

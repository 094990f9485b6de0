use tentrackule::config::Config;
use tentrackule::error::AppError;

fn s(v: &str) -> Option<String> {
    Some(v.to_string())
}

#[test]
fn credentials_are_required() {
    let e = Config::from_values(None, s("key"), None, None, None, None).unwrap_err();
    assert_eq!(e, AppError::Config("DISCORD_TOKEN must be set".into()));
    let e = Config::from_values(s("tok"), None, None, None, None, None).unwrap_err();
    assert_eq!(e, AppError::Config("RIOT_API_KEY must be set".into()));
    assert_eq!(e.message(), "Configuration error: RIOT_API_KEY must be set");
}

#[test]
fn defaults_fill_the_rest() {
    let c = Config::from_values(s("tok"), s("key"), None, None, None, None).unwrap();
    assert_eq!(c.discord_token, "tok");
    assert_eq!(c.riot_api_key, "key");
    assert_eq!(c.database_url, "sqlite:tentrackule.db");
    assert_eq!(c.polling_interval_secs, 60);
    assert_eq!(c.riot_rate_limit_per_second, 20);
    assert_eq!(c.ddragon_version, "16.1.1");
}

#[test]
fn numeric_settings_parse_like_from_str() {
    let c = Config::from_values(
        s("tok"),
        s("key"),
        s("sqlite:other.db"),
        s("+30"),
        s("100"),
        s("15.1.1"),
    )
    .unwrap();
    assert_eq!(c.database_url, "sqlite:other.db");
    assert_eq!(c.polling_interval_secs, 30);
    assert_eq!(c.riot_rate_limit_per_second, 100);
    assert_eq!(c.ddragon_version, "15.1.1");

    let c = Config::from_values(s("t"), s("k"), None, s("-5"), s("0"), None).unwrap();
    assert_eq!(c.polling_interval_secs, 60);
    assert_eq!(c.riot_rate_limit_per_second, 20);

    let c = Config::from_values(s("t"), s("k"), None, s("18446744073709551615"), s("4294967296"), None)
        .unwrap();
    assert_eq!(c.polling_interval_secs, u64::MAX);
    assert_eq!(c.riot_rate_limit_per_second, 20);

    let c = Config::from_values(s("t"), s("k"), None, s(" 5"), s("+"), None).unwrap();
    assert_eq!(c.polling_interval_secs, 60);
    assert_eq!(c.riot_rate_limit_per_second, 20);
}

use tentrackule::discord::ddragon::DdragonData;

#[test]
fn builds_versioned_and_versionless_urls() {
    let d = DdragonData::stub("14.24.1");
    assert_eq!(
        d.spell_src(4).as_deref(),
        Some("https://ddragon.leagueoflegends.com/cdn/14.24.1/img/spell/SummonerFlash.png")
    );
    assert_eq!(
        d.keystone_src(8010).as_deref(),
        Some(
            "https://ddragon.leagueoflegends.com/cdn/img/perk-images/Styles/Precision/Conqueror/Conqueror.png"
        )
    );
    assert_eq!(
        d.secondary_src(8000).as_deref(),
        Some("https://ddragon.leagueoflegends.com/cdn/img/perk-images/Styles/7201_Precision.png")
    );
    assert_eq!(d.spell_src(999), None);
    assert_eq!(d.keystone_src(1), None);
}

#[test]
fn resolves_champion_ids() {
    let d = DdragonData::stub("14.24.1");
    assert_eq!(d.champion_id("Ahri"), Some(103));
    assert_eq!(d.champion_id("Viego"), Some(234));
    assert_eq!(d.champion_id("Unknown"), None);
}

#[test]
fn champion_key_reconciles_matchv5_casing() {
    let d = DdragonData::stub("14.24.1");
    assert_eq!(d.champion_key("FiddleSticks"), "Fiddlesticks");
    assert_eq!(d.champion_id("FiddleSticks"), Some(9));
    assert_eq!(d.champion_key("Ahri"), "Ahri");
    assert_eq!(d.champion_key("Unknown"), "Unknown");
}

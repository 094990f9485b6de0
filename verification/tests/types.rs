use tentrackule::types::{QueueType, Region};

#[test]
fn queue_type_and_region_conversions() {
    let q = QueueType::from(420u16);
    assert!(matches!(q, QueueType::SoloDuo));
    assert_eq!(q.as_str(), "RANKED_SOLO_5x5");
    assert!(matches!(QueueType::from(999u16), QueueType::Unhandled));
    assert_eq!(Region::Euw.to_endpoint(), "euw1.api.riotgames.com");
    assert_eq!(Region::Na.to_global_endpoint(), "americas.api.riotgames.com");
    let s: String = Region::Na.into();
    assert_eq!(s, "NA");
    assert_eq!(Region::try_from("euw".to_string()).unwrap(), Region::Euw);
}

#[test]
fn unknown_region_is_rejected() {
    assert_eq!(Region::try_from("mars".to_string()), Err("Unknown region: mars".to_string()));
    assert_eq!(QueueType::from(440u16).as_str(), "RANKED_FLEX_SR");
    assert!(matches!(QueueType::from(450u16), QueueType::Aram));
}

#[test]
fn every_region_label_parses_back() {
    let all = [
        Region::Lan,
        Region::Las,
        Region::Na,
        Region::Br,
        Region::Euw,
        Region::Eune,
        Region::Tr,
        Region::Ru,
        Region::Kr,
        Region::Jp,
        Region::Oce,
        Region::Tw,
    ];
    for r in all {
        assert_eq!(Region::try_from(String::from(r.clone())), Ok(r.clone()));
        assert_eq!(Region::try_from(String::from(r.clone()).to_lowercase()), Ok(r));
    }
}

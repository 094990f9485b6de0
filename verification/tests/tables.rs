use tentrackule::discord::scorecard::assets::AssetMap;
use tentrackule::table::{name_find_ignore_case, name_get, name_insert, table_get, table_insert};

#[test]
fn keyed_tables_keep_the_last_value() {
    let mut t: Vec<(i32, String)> = Vec::new();
    table_insert(&mut t, 4, "A".into());
    table_insert(&mut t, 7, "B".into());
    table_insert(&mut t, 4, "C".into());
    assert_eq!(t.len(), 2);
    assert_eq!(table_get(&t, 4).map(|s| s.as_str()), Some("C"));
    assert_eq!(table_get(&t, 5), None);

    let mut n: Vec<(String, i64)> = Vec::new();
    name_insert(&mut n, "Fiddlesticks".into(), 9);
    name_insert(&mut n, "Ahri".into(), 103);
    assert_eq!(name_get(&n, "Ahri"), Some(103));
    assert_eq!(name_get(&n, "ahri"), None);
    assert_eq!(name_find_ignore_case(&n, "FIDDLESTICKS").as_deref(), Some("Fiddlesticks"));
    assert_eq!(name_find_ignore_case(&n, "Zed"), None);
}

#[test]
fn asset_map_reads_back_what_was_inserted() {
    let mut m = AssetMap::new();
    assert!(!m.contains_key("u"));
    m.insert("u".into(), "d1".into());
    m.insert("v".into(), "d2".into());
    m.insert("u".into(), "d3".into());
    assert!(m.contains_key("u"));
    assert_eq!(m.get("u").map(|s| s.as_str()), Some("d3"));
    assert_eq!(m.get("v").map(|s| s.as_str()), Some("d2"));
    assert_eq!(m.get("w"), None);
}

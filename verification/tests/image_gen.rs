use tentrackule::discord::image_gen::{
    cache_key, eviction_count, is_expired, is_svg, oldest_first, to_data_uri,
};

#[test]
fn data_uri_sniffs_mime_from_magic_bytes() {
    assert!(to_data_uri(&[0xFF, 0xD8, 0xFF, 0x00]).starts_with("data:image/jpeg;base64,"));
    assert!(to_data_uri(&[0x89, b'P', b'N', b'G']).starts_with("data:image/png;base64,"));
    assert!(to_data_uri(b"<svg xmlns=\"x\"></svg>").starts_with("data:image/svg+xml;base64,"));
    assert!(
        to_data_uri(b"\n  <?xml version=\"1.0\"?><svg/>").starts_with("data:image/svg+xml;base64,")
    );
}

#[test]
fn data_uri_encodes_bytes_in_standard_base64() {
    // The payload is the padded standard base64 of the bytes, not the bytes.
    assert_eq!(to_data_uri(b"hi"), "data:image/png;base64,aGk=");
    assert_eq!(to_data_uri(&[0xFF, 0xD8, 0xFF]), "data:image/jpeg;base64,/9j/");
    assert_eq!(to_data_uri(b""), "data:image/png;base64,");
}

#[test]
fn svg_sniffing_skips_only_ascii_whitespace() {
    assert!(is_svg(b" \t\r\n<svg/>"));
    assert!(!is_svg(b""));
    assert!(!is_svg(b"   "));
    assert!(!is_svg(b"x<svg/>"));
    // A vertical tab is not ASCII whitespace for `u8::is_ascii_whitespace`.
    assert!(!is_svg(b"\x0b<svg/>"));
}

#[test]
fn expiry_compares_age_with_ttl() {
    assert!(!is_expired(Some(10), 10));
    assert!(is_expired(Some(11), 10));
    assert!(!is_expired(Some(0), 10));
    // A timestamp in the future has no age: treated as stale.
    assert!(is_expired(None, u128::MAX));
}

#[test]
fn oldest_first_is_a_stable_sort_by_creation() {
    assert_eq!(oldest_first(&vec![30, 10, 20, 10]), vec![1, 3, 2, 0]);
    assert_eq!(oldest_first(&vec![]), Vec::<usize>::new());
    assert_eq!(oldest_first(&vec![5, 5, 5]), vec![0, 1, 2]);
    assert_eq!(oldest_first(&vec![3, 2, 1]), vec![2, 1, 0]);
}

#[test]
fn eviction_frees_down_to_eighty_percent_oldest_first() {
    // Within the cap: nothing goes.
    let created = vec![1, 2, 3];
    let sizes = vec![30, 30, 40];
    let order = oldest_first(&created);
    assert_eq!(eviction_count(&order, &sizes, 100), 0);
    // 110 bytes over a cap of 100: free 110 - 80 = 30, the single oldest entry.
    let sizes = vec![30, 30, 50];
    assert_eq!(eviction_count(&order, &sizes, 100), 1);
    // Free 40: the first entry (30) is not enough, two are.
    let sizes = vec![30, 30, 60];
    assert_eq!(eviction_count(&order, &sizes, 100), 2);
    // The order decides which go first: here the 60-byte entry is oldest.
    let order = oldest_first(&vec![3, 2, 1]);
    assert_eq!(order, vec![2, 1, 0]);
    assert_eq!(eviction_count(&order, &sizes, 100), 1);
    // A cap of zero empties the cache.
    assert_eq!(eviction_count(&order, &sizes, 0), 3);
}

#[test]
fn cache_key_hashes_the_url() {
    assert_eq!(cache_key(""), "0000000000000000");
    // "a" = 0x61; "ab" = 0x61 * 31 + 0x62 = 0xc21.
    assert_eq!(cache_key("a"), "0000000000000061");
    assert_eq!(cache_key("ab"), "0000000000000c21");
}

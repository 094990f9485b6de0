use tentrackule::db::models::RankInfo;
use tentrackule::discord::scorecard::helpers::{
    calculate_lp_diff, division_progress, escape_html, first_word_of, format_short,
    format_signed, percent, position_icon_src, rank_emblem_src, rank_to_lp, share, win_rate,
};
use tentrackule::float::{cs_per_minute_string, f64_ratio_string};

fn rank(tier: &str, division: &str, lp: i32) -> RankInfo {
    RankInfo { tier: tier.into(), rank: division.into(), lp, wins: None, losses: None }
}

#[test]
fn short_numbers() {
    assert_eq!(format_short(999), "999");
    assert_eq!(format_short(1000), "1.0k");
    assert_eq!(format_short(40_100), "40.1k");
    assert_eq!(format_short(142_384), "142.4k");
    assert_eq!(format_short(1_000_000), "1.0M");
    assert_eq!(format_short(2_345_678), "2.3M");
    assert_eq!(format_short(-5), "-5");
}

#[test]
fn signed_deltas() {
    assert_eq!(format_signed(19), "+19");
    assert_eq!(format_signed(-17), "-17");
    assert_eq!(format_signed(0), "0");
}

#[test]
fn percentages_round_and_saturate() {
    assert_eq!(percent(20, 43), 47);
    assert_eq!(percent(1, 2), 50);
    assert_eq!(percent(1, 0), 0);
    assert_eq!(percent(-3, 10), 0);
    assert_eq!(percent(30, 10), 100);
    assert_eq!(share(0, 0), 50);
    assert_eq!(share(40_100, 22_400), 64);
    assert_eq!(win_rate(Some(32), Some(23)), Some(58));
    assert_eq!(win_rate(Some(0), Some(0)), None);
    assert_eq!(win_rate(None, Some(3)), None);
}

#[test]
fn division_progress_hides_apex_tiers() {
    assert_eq!(division_progress("EMERALD", 63), Some(63));
    assert_eq!(division_progress("gold", 120), Some(100));
    assert_eq!(division_progress("GOLD", -4), Some(0));
    assert_eq!(division_progress("Master", 300), None);
    assert_eq!(division_progress("GRANDMASTER", 10), None);
    assert_eq!(division_progress("challenger", 10), None);
}

#[test]
fn lp_scale_and_difference() {
    assert_eq!(rank_to_lp(&rank("EMERALD", "IV", 63)), 2063);
    assert_eq!(rank_to_lp(&rank("gold", "I", 10)), 1510);
    assert_eq!(rank_to_lp(&rank("unranked", "?", 7)), 7);
    let old = rank("SILVER", "I", 75);
    let new = rank("GOLD", "IV", 15);
    assert_eq!(calculate_lp_diff(Some(&old), Some(&new)), Some(40));
    assert_eq!(calculate_lp_diff(None, Some(&new)), None);
    assert_eq!(calculate_lp_diff(Some(&old), None), None);
}

#[test]
fn escaping_and_icons() {
    assert_eq!(escape_html("a<b>&\"c'"), "a&lt;b&gt;&amp;&quot;c&#39;");
    assert_eq!(escape_html("plain ; text"), "plain ; text");
    assert_eq!(first_word_of("  Emerald IV"), "Emerald");
    assert_eq!(first_word_of(""), "");
    assert_eq!(
        rank_emblem_src("Emerald IV").as_deref(),
        Some("https://raw.communitydragon.org/latest/plugins/rcp-fe-lol-static-assets/global/default/images/ranked-mini-crests/emerald.svg")
    );
    assert_eq!(rank_emblem_src("Unranked"), None);
    assert_eq!(
        position_icon_src("UTILITY").as_deref(),
        Some("https://raw.communitydragon.org/latest/plugins/rcp-fe-lol-static-assets/global/default/svg/position-utility.svg")
    );
    assert_eq!(position_icon_src(""), None);
}

#[test]
fn fixed_point_texts() {
    assert_eq!(f64_ratio_string(20, 1, 2), "20.00");
    assert_eq!(cs_per_minute_string(303, 1955), "9.3");
    assert_eq!(f64_ratio_string(-7, 2, 1), "-3.5");
    assert_eq!(f64_ratio_string(1, 3, 2), "0.33");
    assert_eq!(f64_ratio_string(20, 3, 2), "6.67");
}

#[test]
fn texts_round_the_double_not_the_ratio() {
    // 203/200 is stored as 1.01499999…, so two decimals give 1.01.
    assert_eq!(f64_ratio_string(203, 200, 2), "1.01");
    // 7 CS in 20 minutes: 0.35 is stored as 0.34999…
    assert_eq!(cs_per_minute_string(7, 1200), "0.3");
    assert_eq!(cs_per_minute_string(-7, 1200), "-0.3");
    assert_eq!(cs_per_minute_string(0, -60), "-0.0");
    assert_eq!(cs_per_minute_string(197, 1800), "6.6");
    assert_eq!(cs_per_minute_string(5, 0), "0.0");
    // 1050/1000 is stored as 1.0500000000000000444, 1150/1000 as 1.149999…
    assert_eq!(format_short(1050), "1.1k");
    assert_eq!(format_short(1150), "1.1k");
    assert_eq!(format_short(12450), "12.4k");
    assert_eq!(format_short(2_500_000), "2.5M");
    assert_eq!(format_short(i64::MAX), "9223372036854.8M");
}

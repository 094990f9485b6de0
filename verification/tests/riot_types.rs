use tentrackule::riot::types::{
    kill_assist_in_range, InfoDto, ParticipantDto, PerkSelectionDto, PerkStyleDto, PerksDto,
};

#[test]
fn multi_kill_picks_highest_tier_with_doubles_sub() {
    let p = ParticipantDto { triple_kills: 1, double_kills: 2, ..Default::default() };
    assert_eq!(p.multi_kill(), Some(("1 Triple".to_string(), Some("+2 double".to_string()))));
    let p = ParticipantDto { penta_kills: 1, triple_kills: 3, double_kills: 1, ..Default::default() };
    assert_eq!(p.multi_kill(), Some(("1 Penta".to_string(), Some("+1 double".to_string()))));
    let p = ParticipantDto { double_kills: 2, ..Default::default() };
    assert_eq!(p.multi_kill(), Some(("2 Double".to_string(), None)));
    assert_eq!(ParticipantDto::default().multi_kill(), None);
}

#[test]
fn vision_breakdown_formats_wards() {
    let p = ParticipantDto {
        wards_placed: 12,
        wards_killed: 7,
        detector_wards_placed: 4,
        ..Default::default()
    };
    assert_eq!(p.vision_breakdown(), "12·7·4");
}

#[test]
fn perk_ids_extracted_from_styles() {
    let p = ParticipantDto {
        perks: PerksDto {
            styles: vec![
                PerkStyleDto { style: 8000, selections: vec![PerkSelectionDto { perk: 8010 }] },
                PerkStyleDto { style: 8100, selections: vec![] },
            ],
        },
        ..Default::default()
    };
    assert_eq!(p.keystone_perk_id(), Some(8010));
    assert_eq!(p.secondary_style_id(), Some(8100));
    let empty = ParticipantDto::default();
    assert_eq!(empty.keystone_perk_id(), None);
    assert_eq!(empty.secondary_style_id(), None);
}

fn info(duration: i64, version: &str, queue_id: i32) -> InfoDto {
    InfoDto {
        game_duration: duration,
        game_version: version.into(),
        game_ended_in_early_surrender: false,
        participants: Vec::new(),
        queue_id,
        teams: Vec::new(),
    }
}

#[test]
fn match_info_formats_duration_patch_and_queue() {
    let i = info(1955, "14.24.632.8043", 420);
    assert_eq!(i.duration_formatted(), "32:35");
    assert_eq!(i.patch_version(), "14.24");
    assert_eq!(i.queue_name(), "Ranked Solo/Duo");
    assert!(i.is_ranked() && i.is_solo_queue() && !i.is_flex_queue() && i.is_supported());
    assert_eq!(info(65, "14", 450).duration_formatted(), "1:05");
    assert_eq!(info(65, "14", 450).patch_version(), "14");
    assert_eq!(info(0, "1.2", 999).queue_name(), "Other");
    assert!(!info(0, "1.2", 999).is_supported());
}

#[test]
fn participant_ratios_and_positions() {
    let p = ParticipantDto {
        kills: 16,
        deaths: 0,
        assists: 4,
        total_minions_killed: 290,
        neutral_minions_killed: 13,
        team_position: "BOTTOM".into(),
        ..Default::default()
    };
    let kda = p.kda_ratio();
    assert_eq!((kda.num, kda.den), (20, 1));
    assert_eq!(p.cs_total(), 303);
    let cs = p.cs_per_minute(1955);
    assert_eq!((cs.num, cs.den), (60 * 303, 1955));
    let none = p.cs_per_minute(0);
    assert_eq!((none.num, none.den), (0, 1));
    assert_eq!(p.position_display(), "ADC");
    assert_eq!(ParticipantDto::default().position_display(), "");
}

#[test]
fn kill_assist_range_check() {
    let mut p = ParticipantDto { kills: 8, assists: 12, ..Default::default() };
    assert!(kill_assist_in_range(&p));
    p.kills = i32::MAX;
    assert!(!kill_assist_in_range(&p));
    p.assists = -1;
    assert!(kill_assist_in_range(&p));
    p.kills = i32::MIN;
    assert!(!kill_assist_in_range(&p));
}

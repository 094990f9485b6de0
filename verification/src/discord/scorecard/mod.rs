//! The match card: its view-model and the HTML built from it.
//!
//! [`ScorecardVm`] holds every value the card shows, already formatted;
//! [`ScorecardVm::from_context`] derives it from a match, and
//! [`ScorecardVm::build_html`] assembles the markup from it with no further
//! decisions than which optional blocks are present.
pub mod assets;
pub mod context;

pub mod helpers;
pub mod html;
pub mod layout;


use vstd::prelude::*;

verus! {

/// Card width in CSS pixels; the renderer viewport uses the same value.
pub const CARD_WIDTH_PX: u32 = 820;

/// Match outcome, which selects the colour theme.
#[derive(Debug, Clone, Copy, PartialEq, Eq, Structural)]
pub enum MatchResult {
    Victory,
    Defeat,
    Remake,
}

/// Banner label of an outcome.
pub open spec fn result_label_of(r: MatchResult) -> Seq<char> {
    match r {
        MatchResult::Victory => "VICTORY"@,
        MatchResult::Defeat => "DEFEAT"@,
        MatchResult::Remake => "REMAKE"@,
    }
}

/// The CSS custom properties of an outcome's theme.
pub open spec fn theme_of(r: MatchResult) -> Seq<char> {
    match r {
        MatchResult::Victory => "--card-bg:linear-gradient(158deg,#0b1a2e,#050c15);--edge:#22405f;--panel-bg:linear-gradient(180deg,#0c1e34,#07131f);--panel-edge:#1c3a58;--ribbon-bg:linear-gradient(90deg,#1c4d8c,#2f6fb8);--ribbon-edge:#c8aa6e;--ribbon-text:#f5efe0;--grade-bg:linear-gradient(150deg,#20334d,#0c1826);--grade-edge:#c8aa6e;--grade-text:#f5efe0;--accent:#c8aa6e;--accent-2:#31d07f;--label:#6a8199;--value:#f0e6d2;--value-soft:#9fb4cc;--footer-edge:rgba(200,170,110,.3);--delta:#31d07f;--track:#0f2236;--track-opp:#33546f;--overlay:linear-gradient(180deg,rgba(20,60,110,.4) 0%,rgba(7,16,26,.1) 30%,rgba(6,12,20,.85) 64%,#060e18 100%);--chip-edge:#7a5a2a;--chip-text:#d8c79a;--chip-bg:rgba(6,12,20,.6);--chip-edge-2:#2c4864;--chip-text-2:#9fb4cc;--death:#e84057;--slash:#3f5470;--divider:#24425f"@,
        MatchResult::Defeat => "--card-bg:linear-gradient(158deg,#1d0d10,#0c0607);--edge:#6a2b30;--panel-bg:linear-gradient(180deg,#1e0e11,#120709);--panel-edge:#5a2429;--ribbon-bg:linear-gradient(90deg,#8a2a34,#c0424f);--ribbon-edge:#e0526a;--ribbon-text:#ffe4e8;--grade-bg:linear-gradient(150deg,#4a1e22,#1a090b);--grade-edge:#e0526a;--grade-text:#ffe4e8;--accent:#e0526a;--accent-2:#e0526a;--label:#a8737a;--value:#ffe9eb;--value-soft:#e0b4b9;--footer-edge:rgba(224,82,106,.3);--delta:#ff6b7f;--track:#2a1215;--track-opp:#6b4045;--overlay:linear-gradient(180deg,rgba(90,25,32,.4) 0%,rgba(26,8,10,.1) 30%,rgba(18,7,9,.86) 64%,#0c0607 100%);--chip-edge:#8a3d44;--chip-text:#e59aa4;--chip-bg:rgba(20,8,10,.6);--chip-edge-2:#5a2429;--chip-text-2:#e0b4b9;--death:#ff8a99;--slash:#6b3d43;--divider:#5a2429"@,
        MatchResult::Remake => "--card-bg:linear-gradient(158deg,#181a1f,#0d0e11);--edge:#2f343c;--panel-bg:linear-gradient(180deg,#1a1c21,#101115);--panel-edge:#2a2e35;--ribbon-bg:linear-gradient(90deg,#3a3f47,#565c66);--ribbon-edge:#7a828e;--ribbon-text:#e8eaee;--grade-bg:linear-gradient(150deg,#2a2e35,#141519);--grade-edge:#7a828e;--grade-text:#c8ccd2;--accent:#9aa2ad;--accent-2:#9aa2ad;--label:#6b7178;--value:#e8eaee;--value-soft:#aeb4bd;--footer-edge:rgba(122,130,142,.3);--delta:#aeb4bd;--track:#20232a;--track-opp:#3a3f47;--overlay:linear-gradient(180deg,rgba(60,64,72,.4) 0%,rgba(20,22,26,.1) 30%,rgba(14,15,18,.86) 64%,#0d0e11 100%);--chip-edge:#4a4f57;--chip-text:#aeb4bd;--chip-bg:rgba(14,15,18,.6);--chip-edge-2:#3a3f47;--chip-text-2:#aeb4bd;--death:#c98a90;--slash:#4a4f57;--divider:#3a3f47"@,
    }
}

impl MatchResult {
    /// The banner label (upper-case).
    pub fn result_label(self) -> (r: &'static str)
        ensures
            r@ == result_label_of(self),
    {
        match self {
            MatchResult::Victory => "VICTORY",
            MatchResult::Defeat => "DEFEAT",
            MatchResult::Remake => "REMAKE",
        }
    }

    /// The theme's CSS custom properties, as the content of a `style` attribute.
    pub fn theme_vars(self) -> (r: &'static str)
        ensures
            r@ == theme_of(self),
    {
        match self {
            MatchResult::Victory => "--card-bg:linear-gradient(158deg,#0b1a2e,#050c15);--edge:#22405f;--panel-bg:linear-gradient(180deg,#0c1e34,#07131f);--panel-edge:#1c3a58;--ribbon-bg:linear-gradient(90deg,#1c4d8c,#2f6fb8);--ribbon-edge:#c8aa6e;--ribbon-text:#f5efe0;--grade-bg:linear-gradient(150deg,#20334d,#0c1826);--grade-edge:#c8aa6e;--grade-text:#f5efe0;--accent:#c8aa6e;--accent-2:#31d07f;--label:#6a8199;--value:#f0e6d2;--value-soft:#9fb4cc;--footer-edge:rgba(200,170,110,.3);--delta:#31d07f;--track:#0f2236;--track-opp:#33546f;--overlay:linear-gradient(180deg,rgba(20,60,110,.4) 0%,rgba(7,16,26,.1) 30%,rgba(6,12,20,.85) 64%,#060e18 100%);--chip-edge:#7a5a2a;--chip-text:#d8c79a;--chip-bg:rgba(6,12,20,.6);--chip-edge-2:#2c4864;--chip-text-2:#9fb4cc;--death:#e84057;--slash:#3f5470;--divider:#24425f",
            MatchResult::Defeat => "--card-bg:linear-gradient(158deg,#1d0d10,#0c0607);--edge:#6a2b30;--panel-bg:linear-gradient(180deg,#1e0e11,#120709);--panel-edge:#5a2429;--ribbon-bg:linear-gradient(90deg,#8a2a34,#c0424f);--ribbon-edge:#e0526a;--ribbon-text:#ffe4e8;--grade-bg:linear-gradient(150deg,#4a1e22,#1a090b);--grade-edge:#e0526a;--grade-text:#ffe4e8;--accent:#e0526a;--accent-2:#e0526a;--label:#a8737a;--value:#ffe9eb;--value-soft:#e0b4b9;--footer-edge:rgba(224,82,106,.3);--delta:#ff6b7f;--track:#2a1215;--track-opp:#6b4045;--overlay:linear-gradient(180deg,rgba(90,25,32,.4) 0%,rgba(26,8,10,.1) 30%,rgba(18,7,9,.86) 64%,#0c0607 100%);--chip-edge:#8a3d44;--chip-text:#e59aa4;--chip-bg:rgba(20,8,10,.6);--chip-edge-2:#5a2429;--chip-text-2:#e0b4b9;--death:#ff8a99;--slash:#6b3d43;--divider:#5a2429",
            MatchResult::Remake => "--card-bg:linear-gradient(158deg,#181a1f,#0d0e11);--edge:#2f343c;--panel-bg:linear-gradient(180deg,#1a1c21,#101115);--panel-edge:#2a2e35;--ribbon-bg:linear-gradient(90deg,#3a3f47,#565c66);--ribbon-edge:#7a828e;--ribbon-text:#e8eaee;--grade-bg:linear-gradient(150deg,#2a2e35,#141519);--grade-edge:#7a828e;--grade-text:#c8ccd2;--accent:#9aa2ad;--accent-2:#9aa2ad;--label:#6b7178;--value:#e8eaee;--value-soft:#aeb4bd;--footer-edge:rgba(122,130,142,.3);--delta:#aeb4bd;--track:#20232a;--track-opp:#3a3f47;--overlay:linear-gradient(180deg,rgba(60,64,72,.4) 0%,rgba(20,22,26,.1) 30%,rgba(14,15,18,.86) 64%,#0d0e11 100%);--chip-edge:#4a4f57;--chip-text:#aeb4bd;--chip-bg:rgba(14,15,18,.6);--chip-edge-2:#3a3f47;--chip-text-2:#aeb4bd;--death:#c98a90;--slash:#4a4f57;--divider:#3a3f47",
        }
    }
}

/// K / D / A triple.
#[derive(Debug, Clone)]
pub struct Kda {
    pub kills: i32,
    pub deaths: i32,
    pub assists: i32,
}

/// A stat panel value with an optional dimmed sub-label (`303` + `9.3/m`).
#[derive(Debug, Clone)]
pub struct StatValue {
    pub value: String,
    pub sub: Option<String>,
}

impl StatValue {
    /// A value with its optional sub-label.
    pub fn new(value: String, sub: Option<String>) -> (r: Self)
        ensures
            r.value == value,
            r.sub == sub,
    {
        StatValue { value, sub }
    }
}

/// Ranked footer block (solo/flex). Optional pieces are omitted one by one
/// when their data is not available.
#[derive(Debug, Clone)]
pub struct RankView {
    /// e.g. `Emerald IV`.
    pub tier: String,
    /// Ranked mini-crest `src`; `None` for an unknown tier word.
    pub emblem_src: Option<String>,
    pub lp: i32,
    /// Signed LP delta text (`+19` / `-17`); `None` hides the parenthesis.
    pub delta: Option<String>,
    /// Division progress 0..=100 for the thin bar.
    pub progress: Option<u8>,
    pub winrate: Option<u8>,
    pub wins: Option<i32>,
    pub losses: Option<i32>,
    /// Recent results, `true` = win; empty hides the streak row.
    pub streak: Vec<bool>,
}

/// Champion-mastery footer block (non-ranked queues).
#[derive(Debug, Clone)]
pub struct MasteryView {
    pub level: String,
    pub points: String,
}

/// The summoner spells, runes, items and trinket strip.
#[derive(Debug, Clone, Default)]
pub struct Loadout {
    /// `src` of each resolved summoner spell (0..=2).
    pub spell_srcs: Vec<String>,
    pub keystone_src: Option<String>,
    pub secondary_src: Option<String>,
    /// The six main item slots; `None` renders a dashed empty slot.
    pub items: Vec<Option<String>>,
    pub trinket_src: Option<String>,
}

/// Lane matchup panel.
#[derive(Debug, Clone)]
pub struct MatchupView {
    pub label: String,
    pub opp_icon_src: String,
    pub opp_name: String,
    pub opp_kda: String,
    pub rows: Vec<MatchupRow>,
}

/// One comparison row (DMG / CS / Gold) of the matchup panel; `you_pct` is
/// the player's share (0..=100), the opponent has the rest.
#[derive(Debug, Clone)]
pub struct MatchupRow {
    pub key: String,
    pub you: String,
    pub opp: String,
    pub you_pct: u8,
}

/// One team objective (drakes / barons / towers) with its minimap icon `src`.
#[derive(Debug, Clone)]
pub struct Objective {
    pub icon_src: String,
    pub count: i32,
    pub label: String,
}

/// Team / objectives panel.
#[derive(Debug, Clone)]
pub struct TeamView {
    pub kills: i32,
    pub opp_kills: i32,
    pub objectives: Vec<Objective>,
}

/// Every value of one card, already formatted.
#[derive(Debug, Clone)]
pub struct ScorecardVm {
    pub result: MatchResult,
    // Left sidebar.
    pub champion_splash_src: String,
    pub grade: Option<String>,
    pub player_name: String,
    /// With the leading `#`, e.g. `#01010`.
    pub player_tag: String,
    /// e.g. `JUNGLE`; empty hides the role chip (ARAM).
    pub role_upper: String,
    /// Role glyph of the role chip and the matchup header; `None` for ARAM
    /// and unknown positions.
    pub role_icon_src: Option<String>,
    pub champion_name: String,
    pub champion_level: Option<i32>,
    /// `Some`: ranked footer block; `None`: mastery / queue block.
    pub rank: Option<RankView>,
    pub mastery: Option<MasteryView>,
    pub queue_label: String,
    // Main column.
    pub meta_line: String,
    pub kda: Kda,
    pub kda_ratio: String,
    pub kp: Option<u8>,
    pub kp_sub: Option<String>,
    pub multi: Option<String>,
    pub multi_sub: Option<String>,
    pub cs: StatValue,
    pub gold: StatValue,
    pub damage_value: String,
    pub damage_share: Option<u8>,
    pub vision: StatValue,
    pub loadout: Loadout,
    pub matchup: Option<MatchupView>,
    pub team: Option<TeamView>,
}

/// The multi-kill chip shows next to the KDA: a multi-kill outside a remake.
pub open spec fn shows_multi_chip(vm: ScorecardVm) -> bool {
    vm.multi is Some && vm.result != MatchResult::Remake
}

/// The bottom row has a panel to show.
pub open spec fn shows_bottom(vm: ScorecardVm) -> bool {
    vm.matchup is Some || vm.team is Some
}

impl ScorecardVm {
    /// Whether the KDA multi-kill chip shows.
    pub fn show_multi_chip(&self) -> (r: bool)
        ensures
            r == shows_multi_chip(*self),
    {
        self.multi.is_some() && !matches!(self.result, MatchResult::Remake)
    }

    /// Whether the bottom row (matchup / team) has a panel to show.
    pub fn has_bottom(&self) -> (r: bool)
        ensures
            r == shows_bottom(*self),
    {
        self.matchup.is_some() || self.team.is_some()
    }
}

} // verus!

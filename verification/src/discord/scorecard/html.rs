//! The markup of a match card.
//!
//! Each spec function below reads "`s` followed by the markup of a block":
//! the card is the concatenation of its blocks in document order, and an
//! optional block contributes nothing when its data is absent. Every value
//! taken from the view-model goes through [`escaped`].
use vstd::prelude::*;

use super::helpers::{contains_han, contains_hangul, escaped, is_han, is_hangul, push_escaped};
use super::{
    result_label_of, shows_bottom, theme_of, Loadout, MatchResult, MatchupRow, MatchupView,
    Objective, RankView, ScorecardVm, StatValue, TeamView, CARD_WIDTH_PX,
};
use crate::numfmt::{push_signed, signed_decimal};
use crate::text::{push_str, string_of};

verus! {

/// `s` followed by the left sidebar: splash, result ribbon, grade badge,
/// identity, role and champion chips, then the ranked or mastery footer.
pub open spec fn sidebar(s: Seq<char>, vm: ScorecardVm) -> Seq<char> {
    let s = s
        + "    <div style=\"position:relative;width:248px;flex:none;overflow:hidden;border-right:1px solid var(--edge,#22405f)\">\n"@
        + "      <img src=\""@
        + escaped(vm.champion_splash_src@)
        + "\" style=\"position:absolute;inset:0;width:100%;height:100%;object-fit:cover;object-position:center 10%\">\n"@
        + "      <div style=\"position:absolute;inset:0;background:var(--overlay,linear-gradient(180deg,rgba(20,60,110,.4),rgba(6,12,20,.85) 64%,#060e18))\"></div>\n"@
        + "      <div style=\"position:relative;display:flex;align-items:flex-start;justify-content:space-between;padding:14px 14px 0\">\n"@
        + "        <span style=\"padding:5px 11px;background:var(--ribbon-bg,linear-gradient(90deg,#1c4d8c,#2f6fb8));border:1px solid var(--ribbon-edge,#c8aa6e);border-radius:5px;font:700 11px/1 Cinzel,serif;letter-spacing:.2em;color:var(--ribbon-text,#f5efe0)\">"@
        + result_label_of(vm.result)
        + "</span>\n"@;
    let s = match vm.grade {
        Some(g) => s + "        <div style=\"position:relative;width:52px;height:52px;display:flex;align-items:center;justify-content:center\">\n"@ + "          <div style=\"position:absolute;inset:3px;background:var(--grade-bg,linear-gradient(150deg,#20334d,#0c1826));border:2px solid var(--grade-edge,#c8aa6e);border-radius:11px;transform:rotate(45deg);box-shadow:0 0 16px -3px rgba(120,120,120,.35)\"></div>\n"@ + "          <span style=\"position:relative;font:700 22px/1 Cinzel,serif;color:var(--grade-text,#f5efe0)\">"@ + escaped(g@) + "</span>\n        </div>\n"@,
        _ => s,
    };
    let s = s
        + "      </div>\n"@
        + "      <div style=\"position:absolute;left:0;right:0;bottom:0;padding:0 14px 14px\">\n"@
        + "        <div style=\"font:700 19px/1.1 'Noto Sans JP','Noto Sans KR','Noto Sans SC','Barlow Semi Condensed',sans-serif;color:var(--value,#f5efe0)\">"@
        + escaped(vm.player_name@)
        + "<span style=\"color:var(--value-soft,#8aa0b8);font-weight:600;font-size:14px\">"@
        + escaped(vm.player_tag@)
        + "</span></div>\n"@
        + "        <div style=\"display:flex;gap:6px;margin-top:7px\">\n"@;
    let s = if vm.role_upper@.len() > 0 {
        let s = s + "          <span style=\"display:inline-flex;align-items:center;gap:4px;padding:2px 7px;border:1px solid var(--chip-edge,#7a5a2a);border-radius:4px;font:700 9px/1.4;letter-spacing:.14em;color:var(--chip-text,#c8aa6e);text-transform:uppercase\">"@;
        let s = match vm.role_icon_src {
            Some(src) => s + "<img src=\""@ + escaped(src@) + "\" style=\"width:16px;height:16px;object-fit:contain;filter:brightness(0) invert(0.78)\">"@,
            _ => s,
        };
        let s = s
            + escaped(vm.role_upper@)
            + "</span>\n"@;
        s
    } else {
        s
    };
    let s = s
        + "          <span style=\"padding:2px 7px;background:var(--chip-bg,rgba(6,12,20,.6));border:1px solid var(--chip-edge-2,#2c4864);border-radius:4px;font:700 9px/1.4;letter-spacing:.08em;color:var(--chip-text-2,#9fb4cc);text-transform:uppercase;white-space:nowrap\">"@
        + escaped(vm.champion_name@);
    let s = match vm.champion_level {
        Some(level) => s + " \u{b7} Lvl "@ + signed_decimal(level as int),
        _ => s,
    };
    let s = s
        + "</span>\n        </div>\n"@
        + "        <div style=\"height:1px;background:var(--footer-edge,rgba(200,170,110,.25));margin:12px 0\"></div>\n"@;
    let s = match vm.rank {
        Some(r) => ranked_block(s, r),
        _ => mastery_block(s, vm),
    };
    s
        + "      </div>\n"@
        + "    </div>\n"@
}

/// `s` followed by the ranked footer: crest, tier, LP and delta, win rate,
/// division bar and recent-form streak, each when present.
pub open spec fn ranked_block(s: Seq<char>, rank: RankView) -> Seq<char> {
    let s = s
        + "        <div>\n"@
        + "          <div style=\"display:flex;align-items:center;gap:10px\">\n"@;
    let s = match rank.emblem_src {
        Some(src) => s + "            <img src=\""@ + escaped(src@) + "\" style=\"width:52px;height:52px;flex:none;object-fit:contain;filter:drop-shadow(0 1px 5px rgba(0,0,0,.6))\">\n"@,
        _ => s,
    };
    let s = s
        + "            <div>\n"@
        + "              <div style=\"font:700 13px/1.1 Cinzel,serif;color:var(--value,#e6d9b8);white-space:nowrap\">"@
        + escaped(rank.tier@)
        + "</div>\n"@
        + "              <div style=\"font:700 11px/1;margin-top:3px;color:var(--value,#cddcec)\">"@
        + signed_decimal(rank.lp as int)
        + " LP"@;
    let s = match rank.delta {
        Some(delta) => s + " <span style=\"color:var(--delta,#31d07f)\">("@ + escaped(delta@) + ")</span>"@,
        _ => s,
    };
    let s = s + "</div>\n            </div>\n"@;
    let s = match (rank.winrate, rank.wins, rank.losses) {
        (Some(wr), Some(wins), Some(losses)) => s + "            <div style=\"margin-left:auto;text-align:right\">\n"@ + "              <div style=\"font:700 13px/1;color:var(--value,#f0e6d2)\">"@ + signed_decimal(wr as int) + "% <span style=\"font-size:9px;color:var(--label,#6a8199);font-weight:600\">WR</span></div>\n"@ + "              <div style=\"font:600 9px/1;margin-top:3px;color:var(--value-soft,#8aa0b8)\">"@ + signed_decimal(wins as int) + "W \u{b7} "@ + signed_decimal(losses as int) + "L</div>\n            </div>\n"@,
        _ => s,
    };
    let s = s + "          </div>\n"@;
    let s = match rank.progress {
        Some(progress) => s + "          <div style=\"margin-top:10px;height:5px;border-radius:3px;background:var(--track,#12283f);overflow:hidden\"><div style=\"width:"@ + signed_decimal(progress as int) + "%;height:100%;background:linear-gradient(90deg,#1c8f6b,#31d07f)\"></div></div>\n"@,
        _ => s,
    };
    let s = if rank.streak@.len() > 0 {
        let s = s + "          <div style=\"display:flex;gap:3px;margin-top:8px\">"@;
        let s = streak_cells(s, rank.streak@);
        let s = s + "</div>\n"@;
        s
    } else {
        s
    };
    s + "        </div>\n"@
}

/// `s` followed by the non-ranked footer: mastery (when present) and the
/// queue chip.
pub open spec fn mastery_block(s: Seq<char>, vm: ScorecardVm) -> Seq<char> {
    let s = s + "        <div style=\"display:flex;align-items:center;gap:10px\">\n"@;
    let s = match vm.mastery {
        Some(mastery) => s + "          <div style=\"width:26px;height:26px;flex:none;transform:rotate(45deg);border-radius:5px;background:linear-gradient(135deg,#e6c974,#8a6a24);border:1px solid #f0dfa0;box-shadow:0 0 10px -2px rgba(200,170,110,.5)\"></div>\n"@ + "          <div>\n"@ + "            <div style=\"font:700 13px/1.1 Cinzel,serif;color:var(--value,#e6d9b8)\">Mastery "@ + escaped(mastery.level@) + "</div>\n"@ + "            <div style=\"font:600 10px/1;margin-top:3px;color:var(--value-soft,#9fb4cc)\">"@ + escaped(mastery.points@) + " pts</div>\n          </div>\n"@,
        _ => s,
    };
    s
        + "          <span style=\"margin-left:auto;padding:3px 9px;background:var(--chip-bg,rgba(6,12,20,.6));border:1px solid var(--chip-edge-2,#2c4864);border-radius:20px;font:700 9px/1.4;letter-spacing:.1em;color:var(--chip-text-2,#9fb4cc);text-transform:uppercase\">"@
        + escaped(vm.queue_label@)
        + "</span>\n        </div>\n"@
}

/// `s` followed by the main column: header, KDA with its chips, the stats
/// grid, the loadout strip and the bottom row when it has a panel.
pub open spec fn main_column(s: Seq<char>, vm: ScorecardVm) -> Seq<char> {
    let s = s
        + "    <div style=\"flex:1;min-width:0;display:flex;flex-direction:column;padding:14px 16px\">\n"@
        + "      <div style=\"display:flex;align-items:center;justify-content:space-between;margin-bottom:11px\">\n"@
        + "        <span style=\"font:700 10px/1;letter-spacing:.16em;color:var(--label,#6a8199);text-transform:uppercase\">Match Summary</span>\n"@
        + "        <span style=\"font:600 10.5px/1;letter-spacing:.05em;color:var(--value-soft,#8fb2da);text-transform:uppercase\">"@
        + escaped(vm.meta_line@)
        + "</span>\n      </div>\n"@
        + "      <div style=\"display:flex;align-items:flex-end;gap:14px;margin-bottom:13px\">\n"@
        + "        <div style=\"font:700 38px/0.85 'Barlow Semi Condensed';color:var(--value,#f5efe0)\">"@
        + signed_decimal(vm.kda.kills as int)
        + "<span style=\"color:var(--slash,#3f5470);margin:0 6px;font-weight:500\">/</span><span style=\"color:var(--death,#e84057)\">"@
        + signed_decimal(vm.kda.deaths as int)
        + "</span><span style=\"color:var(--slash,#3f5470);margin:0 6px;font-weight:500\">/</span>"@
        + signed_decimal(vm.kda.assists as int)
        + "</div>\n"@
        + "        <div style=\"display:flex;flex-direction:column;gap:6px;padding-bottom:3px\">\n"@
        + "          <span style=\"font:700 14px/1;color:var(--accent,#c8aa6e)\">"@
        + escaped(vm.kda_ratio@)
        + " KDA</span>\n"@
        + "          <div style=\"display:flex;gap:6px\">\n"@;
    let s = match vm.kp {
        Some(kp) => s + "            <span style=\"padding:2px 7px;border-radius:4px;background:var(--chip-bg,rgba(200,170,110,.12));border:1px solid var(--chip-edge,#7a5a2a);font:700 9.5px/1.4;letter-spacing:.08em;color:var(--chip-text,#d8c79a);white-space:nowrap;text-transform:uppercase\">"@ + signed_decimal(kp as int) + "% KP</span>\n"@,
        _ => s,
    };
    let s = match vm.multi {
        Some(multi) => {
            let s = if vm.result != MatchResult::Remake {
                s + "            <span style=\"padding:2px 7px;border-radius:4px;background:var(--accent,#c8aa6e);font:700 9.5px/1.4;letter-spacing:.08em;color:#1a1206;white-space:nowrap;text-transform:uppercase\">"@ + escaped(multi@) + "</span>\n"@
            } else {
                s
            };
            s
        },
        _ => s,
    };
    let s = s + "          </div>\n        </div>\n      </div>\n"@;
    let s = stats_grid(s, vm);
    let s = loadout_strip(s, vm.loadout);
    let s = if shows_bottom(vm) {
        bottom_row(s, vm)
    } else {
        s
    };
    s + "    </div>\n"@
}

/// `s` followed by the six stat panels.
pub open spec fn stats_grid(s: Seq<char>, vm: ScorecardVm) -> Seq<char> {
    let s = s + "      <div style=\"display:grid;grid-template-columns:repeat(3,1fr);gap:8px;margin-bottom:10px\">\n"@;
    let s = stat_panel(s, "CS"@, vm.cs);
    let s = stat_panel(s, "Gold"@, vm.gold);
    let s = damage_panel(s, vm);
    let s = stat_panel(s, "Vision"@, vm.vision);
    let s = kp_panel(s, vm);
    let s = multi_panel(s, vm);
    s + "      </div>\n"@
}

/// `s` followed by a value panel with its optional sub-label.
pub open spec fn stat_panel(s: Seq<char>, label: Seq<char>, stat: StatValue) -> Seq<char> {
    let s = panel_head(s, label);
    let s = s
        + "<div style=\"font:700 19px/1 'Barlow Semi Condensed';color:var(--value,#f0e6d2)\">"@
        + escaped(stat.value@);
    let s = match stat.sub {
        Some(sub) => s + " <span style=\"font-size:10px;color:var(--label,#6a8199);font-weight:600\">"@ + escaped(sub@) + "</span>"@,
        _ => s,
    };
    s + "</div></div>\n"@
}

/// `s` followed by the damage panel and its team-share bar when known.
pub open spec fn damage_panel(s: Seq<char>, vm: ScorecardVm) -> Seq<char> {
    let s = panel_head(s, "Damage"@);
    let s = s
        + "<div style=\"font:700 19px/1 'Barlow Semi Condensed';color:var(--value,#f0e6d2)\">"@
        + escaped(vm.damage_value@)
        + "</div>"@;
    let s = match vm.damage_share {
        Some(share) => s + "<div style=\"margin-top:5px;height:4px;border-radius:2px;background:var(--track,#12283f);overflow:hidden\"><div style=\"width:"@ + signed_decimal(share as int) + "%;height:100%;background:var(--accent,#c8aa6e)\"></div></div><div style=\"margin-top:3px;font:600 9px/1;color:var(--label,#6a8199)\">"@ + signed_decimal(share as int) + "% team</div>"@,
        _ => s,
    };
    s + "</div>\n"@
}

/// `s` followed by the kill-participation panel (a dash when unknown).
pub open spec fn kp_panel(s: Seq<char>, vm: ScorecardVm) -> Seq<char> {
    let s = panel_head(s, "KP"@);
    let s = s + "<div style=\"font:700 19px/1 'Barlow Semi Condensed';color:var(--value,#f0e6d2)\">"@;
    let s = match vm.kp {
        Some(kp) => {
            let s = s
                + signed_decimal(kp as int)
                + "%"@;
            let s = match vm.kp_sub {
                Some(sub) => s + " <span style=\"font-size:10px;color:var(--label,#6a8199);font-weight:600\">"@ + escaped(sub@) + "</span>"@,
                _ => s,
            };
            s
        },
        _ => s + "\u{2014}"@,
    };
    s + "</div></div>\n"@
}

/// `s` followed by the multi-kill panel (a dash without one).
pub open spec fn multi_panel(s: Seq<char>, vm: ScorecardVm) -> Seq<char> {
    let s = panel_head(s, "Multi-kills"@);
    let s = s + "<div style=\"font:700 15px/1 'Barlow Semi Condensed';color:var(--accent,#c8aa6e)\">"@;
    let s = match vm.multi {
        Some(multi) => {
            let s = s + escaped(multi@);
            let s = match vm.multi_sub {
                Some(sub) => s + " <span style=\"font-size:10px;color:var(--label,#6a8199);font-weight:600\">"@ + escaped(sub@) + "</span>"@,
                _ => s,
            };
            s
        },
        _ => s + "\u{2014}"@,
    };
    s + "</div></div>\n"@
}

/// `s` followed by the bottom row: matchup and team panels when present.
pub open spec fn bottom_row(s: Seq<char>, vm: ScorecardVm) -> Seq<char> {
    let s = s + "      <div style=\"display:flex;gap:8px\">\n"@;
    let s = match vm.matchup {
        Some(m) => matchup_panel(s, vm, m),
        _ => s,
    };
    let s = match vm.team {
        Some(t) => team_panel(s, t),
        _ => s,
    };
    s + "      </div>\n"@
}

/// `s` followed by the lane matchup panel.
pub open spec fn matchup_panel(s: Seq<char>, vm: ScorecardVm, m: MatchupView) -> Seq<char> {
    let s = s
        + "        <div style=\"flex:1.5;background:var(--panel-bg,linear-gradient(180deg,#0c1e34,#07131f));border:1px solid var(--panel-edge,#1c3a58);border-radius:9px;padding:9px 12px\">\n"@
        + "          <div style=\"display:flex;align-items:center;justify-content:space-between;margin-bottom:9px\">\n"@
        + "            <span style=\"display:inline-flex;align-items:center;gap:5px;font:700 9px/1;letter-spacing:.12em;color:var(--label,#6a8199);text-transform:uppercase\">"@;
    let s = match vm.role_icon_src {
        Some(src) => s + "<img src=\""@ + escaped(src@) + "\" style=\"width:17px;height:17px;object-fit:contain;filter:brightness(0) invert(0.55)\">"@,
        _ => s,
    };
    let s = s
        + escaped(m.label@)
        + "</span>\n"@
        + "            <span style=\"display:flex;align-items:center;gap:6px\"><img src=\""@
        + escaped(m.opp_icon_src@)
        + "\" style=\"width:18px;height:18px;border-radius:4px;border:1px solid var(--panel-edge,#4a3030)\"><span style=\"font:700 10px/1;color:var(--value,#cddcec)\">"@
        + escaped(m.opp_name@)
        + " "@
        + escaped(m.opp_kda@)
        + "</span></span>\n          </div>\n"@;
    let s = matchup_rows(s, m.rows@);
    s + "        </div>\n"@
}

/// `s` followed by the team / objectives panel.
pub open spec fn team_panel(s: Seq<char>, t: TeamView) -> Seq<char> {
    let s = s
        + "        <div style=\"flex:1;background:var(--panel-bg,linear-gradient(180deg,#0c1e34,#07131f));border:1px solid var(--panel-edge,#1c3a58);border-radius:9px;padding:9px 12px\">\n"@
        + "          <div style=\"font:700 9px/1;letter-spacing:.12em;color:var(--label,#6a8199);text-transform:uppercase;margin-bottom:9px\">Team \u{b7} Objectives</div>\n"@
        + "          <div style=\"display:flex;align-items:baseline;gap:6px;margin-bottom:11px\"><span style=\"font:700 22px/1;color:var(--accent-2,#31d07f)\">"@
        + signed_decimal(t.kills as int)
        + "</span><span style=\"font:700 9px/1;letter-spacing:.08em;color:var(--label,#6a8199);text-transform:uppercase\">kills \u{b7} opp. "@
        + signed_decimal(t.opp_kills as int)
        + "</span></div>\n"@;
    let s = if t.objectives@.len() > 0 {
        let s = s + "          <div style=\"display:flex;gap:13px;flex-wrap:wrap\">\n"@;
        let s = objective_cells(s, t.objectives@);
        let s = s + "          </div>\n"@;
        s
    } else {
        s
    };
    s + "        </div>\n"@
}

/// `s` followed by the opening of a stat panel and its label.
pub open spec fn panel_head(s: Seq<char>, label: Seq<char>) -> Seq<char> {
    s
        + "        <div style=\"display:flex;flex-direction:column;justify-content:center;gap:6px;background:var(--panel-bg,linear-gradient(180deg,#0c1e34,#07131f));border:1px solid var(--panel-edge,#1c3a58);border-radius:9px;padding:10px 11px\">"@
        + "<div style=\"font:700 9px/1;letter-spacing:.12em;color:var(--label,#6a8199);text-transform:uppercase\">"@
        + escaped(label)
        + "</div>"@
}

/// `s` followed by one streak cell per recent result (green win, red loss).
pub open spec fn streak_cells(s: Seq<char>, streak: Seq<bool>) -> Seq<char>
    decreases streak.len(),
{
    if streak.len() == 0 {
        s
    } else {
        streak_cells(s, streak.drop_last())
            + "<span style=\"flex:1;height:5px;border-radius:2px;background:"@
            + if streak.last() { "#1e9e6a"@ } else { "#c0455f"@ }
            + "\"></span>"@
    }
}

/// `s` followed by one icon per summoner spell.
pub open spec fn spell_imgs(s: Seq<char>, srcs: Seq<String>) -> Seq<char>
    decreases srcs.len(),
{
    if srcs.len() == 0 {
        s
    } else {
        spell_imgs(s, srcs.drop_last())
            + "        <img src=\""@
            + escaped(srcs.last()@)
            + "\" style=\"width:32px;height:32px;border-radius:5px;border:1px solid var(--panel-edge,#35506f)\">\n"@
    }
}

/// `s` followed by the item slots: an icon per item, a dashed box per
/// empty slot.
pub open spec fn item_slots(s: Seq<char>, items: Seq<Option<String>>) -> Seq<char>
    decreases items.len(),
{
    if items.len() == 0 {
        s
    } else {
        let s = item_slots(s, items.drop_last());
        match items.last() {
            Some(src) => s
                + "        <img src=\""@
                + escaped(src@)
                + "\" style=\"width:32px;height:32px;border-radius:5px;border:1px solid var(--panel-edge,#2c4864)\">\n"@,
            None => s
                + "        <div style=\"width:32px;height:32px;border-radius:5px;border:1px dashed var(--panel-edge,#2c4864);background:rgba(0,0,0,.22)\"></div>\n"@,
        }
    }
}

/// The loadout strip's separator between groups.
pub open spec fn loadout_divider() -> Seq<char> {
    "        <div style=\"width:1px;height:28px;background:var(--divider,#24425f);margin:0 3px\"></div>\n"@
}

/// The spells-and-runes group of a loadout is not empty.
pub open spec fn has_spells_runes(l: Loadout) -> bool {
    l.spell_srcs@.len() > 0 || l.keystone_src is Some || l.secondary_src is Some
}

/// `s` followed by the loadout strip: spells and runes, items, trinket, with
/// a divider between two present groups.
pub open spec fn loadout_strip(s: Seq<char>, l: Loadout) -> Seq<char> {
    let s = s
        + "      <div style=\"display:flex;align-items:center;gap:7px;background:var(--panel-bg,linear-gradient(180deg,#0c1e34,#07131f));border:1px solid var(--panel-edge,#1c3a58);border-radius:9px;padding:8px 10px;margin-bottom:10px\">\n"@;
    let s = if has_spells_runes(l) {
        let s = spell_imgs(s, l.spell_srcs@);
        let s = match l.keystone_src {
            Some(src) => s
                + "        <div style=\"width:32px;height:32px;border-radius:50%;background:radial-gradient(circle,#141c26,#0a0f16);border:1px solid var(--chip-edge,#7a5a2a);display:flex;align-items:center;justify-content:center\"><img src=\""@
                + escaped(src@)
                + "\" style=\"width:27px;height:27px\"></div>\n"@,
            None => s,
        };
        match l.secondary_src {
            Some(src) => s
                + "        <div style=\"width:32px;height:32px;border-radius:50%;background:radial-gradient(circle,#141c26,#0a0f16);border:1px solid var(--panel-edge,#35506f);display:flex;align-items:center;justify-content:center\"><img src=\""@
                + escaped(src@)
                + "\" style=\"width:26px;height:26px\"></div>\n"@,
            None => s,
        }
    } else {
        s
    };
    let s = if l.items@.len() > 0 {
        let s = if has_spells_runes(l) {
            s + loadout_divider()
        } else {
            s
        };
        item_slots(s, l.items@)
    } else {
        s
    };
    let s = match l.trinket_src {
        Some(src) => {
            let s = if has_spells_runes(l) || l.items@.len() > 0 {
                s + loadout_divider()
            } else {
                s
            };
            s + "        <img src=\""@ + escaped(src@)
                + "\" style=\"width:32px;height:32px;border-radius:5px;border:1px solid #4a6a3a\">\n"@
        },
        None => s,
    };
    s + "      </div>\n"@
}

/// The opponent's share of a row: the rest of 100, `0` past 100.
pub open spec fn opp_pct(you_pct: u8) -> int {
    if you_pct <= 100 {
        100 - you_pct
    } else {
        0
    }
}

/// `s` followed by the comparison rows of the matchup panel.
pub open spec fn matchup_rows(s: Seq<char>, rows: Seq<MatchupRow>) -> Seq<char>
    decreases rows.len(),
{
    if rows.len() == 0 {
        s
    } else {
        let row = rows.last();
        matchup_rows(s, rows.drop_last())
            + "          <div style=\"display:flex;align-items:center;gap:7px;margin-bottom:6px\"><span style=\"width:30px;font:700 8px/1;letter-spacing:.06em;color:var(--label,#6a8199);text-transform:uppercase\">"@
            + escaped(row.key@)
            + "</span><span style=\"width:38px;text-align:right;font:700 10px/1;color:var(--accent,#c8aa6e)\">"@
            + escaped(row.you@)
            + "</span><div style=\"flex:1;display:flex;height:5px;border-radius:3px;overflow:hidden;background:var(--track,#0f2236)\"><div style=\"flex:"@
            + signed_decimal(row.you_pct as int)
            + ";background:var(--accent,#c8aa6e)\"></div><div style=\"flex:"@
            + signed_decimal(opp_pct(row.you_pct))
            + ";background:var(--track-opp,#33546f)\"></div></div><span style=\"width:32px;font:700 10px/1;color:var(--value-soft,#7d93ac)\">"@
            + escaped(row.opp@)
            + "</span></div>\n"@
    }
}

/// `s` followed by one cell per team objective.
pub open spec fn objective_cells(s: Seq<char>, obs: Seq<Objective>) -> Seq<char>
    decreases obs.len(),
{
    if obs.len() == 0 {
        s
    } else {
        let ob = obs.last();
        objective_cells(s, obs.drop_last())
            + "            <div style=\"display:flex;align-items:center;gap:5px\"><img src=\""@
            + escaped(ob.icon_src@)
            + "\" style=\"width:16px;height:16px;object-fit:contain;flex:none\"><span style=\"font:700 13px/1;color:var(--value,#e6edf5)\">"@
            + signed_decimal(ob.count as int)
            + "</span><span style=\"font:600 9px/1;letter-spacing:.04em;color:var(--label,#6a8199);text-transform:uppercase\">"@
            + escaped(ob.label@)
            + "</span></div>\n"@
    }
}

/// `s` holds a Hangul (Korean) code point.
pub open spec fn has_hangul(s: Seq<char>) -> bool {
    exists|i: int| 0 <= i < s.len() && is_hangul(#[trigger] s[i])
}

/// `s` holds a Han (CJK unified) ideograph.
pub open spec fn has_han(s: Seq<char>) -> bool {
    exists|i: int| 0 <= i < s.len() && is_han(#[trigger] s[i])
}

/// Google Fonts stylesheet URL for a card whose player is `name`: Cinzel,
/// Barlow and Noto Sans JP always, the Korean and Simplified-Chinese Noto
/// subsets only when the name holds those scripts.
pub open spec fn font_css(name: Seq<char>) -> Seq<char> {
    let f = "https://fonts.googleapis.com/css2?"@
        + "family=Cinzel:wght@600;700&family=Barlow+Semi+Condensed:wght@400;500;600;700&family=Noto+Sans+JP:wght@500;700"@;
    let f = if has_hangul(name) {
        f + "&family=Noto+Sans+KR:wght@500;700"@
    } else {
        f
    };
    let f = if has_han(name) {
        f + "&family=Noto+Sans+SC:wght@500;700"@
    } else {
        f
    };
    f + "&display=swap"@
}

/// The whole HTML document of a card: fonts, page style, then the card
/// root themed by the outcome, holding the sidebar and the main column.
pub open spec fn document(vm: ScorecardVm) -> Seq<char> {
    let s = "<!DOCTYPE html>\n<html>\n<head>\n<meta charset=\"utf-8\">\n<link rel=\"preconnect\" href=\"https://fonts.googleapis.com\">\n<link rel=\"preconnect\" href=\"https://fonts.gstatic.com\" crossorigin>\n<link href=\""@
        + font_css(vm.player_name@)
        + "\" rel=\"stylesheet\">\n<style>body{margin:0;padding:40px;background:#101216;font-family:'Barlow Semi Condensed',system-ui,sans-serif}</style>\n<script>addEventListener('error',function(e){var t=e.target;if(t&&t.tagName==='IMG'){t.style.visibility='hidden';}},true);</script>\n</head>\n<body>\n"@
        + "<div id=\"card-root\" style=\""@
        + theme_of(vm.result)
        + ";display:inline-block\">\n"@
        + "  <div style=\"width:"@
        + signed_decimal(CARD_WIDTH_PX as int)
        + "px;display:flex;font-family:'Barlow Semi Condensed',sans-serif;color:var(--value,#f0e6d2);background:var(--card-bg,linear-gradient(158deg,#0b1a2e,#050c15));border:1px solid var(--edge,#22405f);border-radius:14px;overflow:hidden;box-shadow:0 26px 60px -22px rgba(0,0,0,.85),inset 0 1px 0 rgba(255,255,255,.05)\">\n"@;
    let s = main_column(sidebar(s, vm), vm);
    s + "  </div>\n"@ + "</div>\n</body>\n</html>\n"@
}

impl ScorecardVm {
    /// The final, self-contained HTML document of the card (fonts + card);
    /// the `#card-root` element is the part to capture.
    pub fn build_html(&self) -> (r: String)
        ensures
            r@ == document(*self),
    {
        let mut s = string_of(
            "<!DOCTYPE html>\n<html>\n<head>\n<meta charset=\"utf-8\">\n<link rel=\"preconnect\" href=\"https://fonts.googleapis.com\">\n<link rel=\"preconnect\" href=\"https://fonts.gstatic.com\" crossorigin>\n<link href=\"",
        );
        let font = self.font_css_url();
        push_str(&mut s, font.as_str());
        push_str(
            &mut s,
            "\" rel=\"stylesheet\">\n<style>body{margin:0;padding:40px;background:#101216;font-family:'Barlow Semi Condensed',system-ui,sans-serif}</style>\n<script>addEventListener('error',function(e){var t=e.target;if(t&&t.tagName==='IMG'){t.style.visibility='hidden';}},true);</script>\n</head>\n<body>\n",
        );
        push_str(&mut s, "<div id=\"card-root\" style=\"");
        push_str(&mut s, self.result.theme_vars());
        push_str(&mut s, ";display:inline-block\">\n");
        push_str(&mut s, "  <div style=\"width:");
        push_signed(&mut s, CARD_WIDTH_PX as i64);
        push_str(
            &mut s,
            "px;display:flex;font-family:'Barlow Semi Condensed',sans-serif;color:var(--value,#f0e6d2);background:var(--card-bg,linear-gradient(158deg,#0b1a2e,#050c15));border:1px solid var(--edge,#22405f);border-radius:14px;overflow:hidden;box-shadow:0 26px 60px -22px rgba(0,0,0,.85),inset 0 1px 0 rgba(255,255,255,.05)\">\n",
        );
        self.push_sidebar(&mut s);
        self.push_main(&mut s);
        push_str(&mut s, "  </div>\n");
        push_str(&mut s, "</div>\n</body>\n</html>\n");
        s
    }

    /// Google Fonts stylesheet URL of the card (see [`font_css`]); the player
    /// name is the only field carrying arbitrary user text.
    pub fn font_css_url(&self) -> (r: String)
        ensures
            r@ == font_css(self.player_name@),
    {
        let mut f = string_of("https://fonts.googleapis.com/css2?");
        push_str(
            &mut f,
            "family=Cinzel:wght@600;700&family=Barlow+Semi+Condensed:wght@400;500;600;700&family=Noto+Sans+JP:wght@500;700",
        );
        if contains_hangul(self.player_name.as_str()) {
            push_str(&mut f, "&family=Noto+Sans+KR:wght@500;700");
        }
        if contains_han(self.player_name.as_str()) {
            push_str(&mut f, "&family=Noto+Sans+SC:wght@500;700");
        }
        push_str(&mut f, "&display=swap");
        f
    }

    /// Loadout strip.
    fn push_loadout(&self, s: &mut String)
        ensures
            final(s)@ == loadout_strip(old(s)@, self.loadout),
    {
        let l = &self.loadout;
        push_str(
            s,
            "      <div style=\"display:flex;align-items:center;gap:7px;background:var(--panel-bg,linear-gradient(180deg,#0c1e34,#07131f));border:1px solid var(--panel-edge,#1c3a58);border-radius:9px;padding:8px 10px;margin-bottom:10px\">\n",
        );
        let mut need_divider = false;
        if l.spell_srcs.len() > 0 || l.keystone_src.is_some() || l.secondary_src.is_some() {
            push_spell_imgs(s, &l.spell_srcs);
            if let Some(src) = &l.keystone_src {
                push_str(
                    s,
                    "        <div style=\"width:32px;height:32px;border-radius:50%;background:radial-gradient(circle,#141c26,#0a0f16);border:1px solid var(--chip-edge,#7a5a2a);display:flex;align-items:center;justify-content:center\"><img src=\"",
                );
                push_escaped(s, src.as_str());
                push_str(s, "\" style=\"width:27px;height:27px\"></div>\n");
            }
            if let Some(src) = &l.secondary_src {
                push_str(
                    s,
                    "        <div style=\"width:32px;height:32px;border-radius:50%;background:radial-gradient(circle,#141c26,#0a0f16);border:1px solid var(--panel-edge,#35506f);display:flex;align-items:center;justify-content:center\"><img src=\"",
                );
                push_escaped(s, src.as_str());
                push_str(s, "\" style=\"width:26px;height:26px\"></div>\n");
            }
            need_divider = true;
        }
        if l.items.len() > 0 {
            if need_divider {
                push_loadout_divider(s);
            }
            push_item_slots(s, &l.items);
            need_divider = true;
        }
        if let Some(src) = &l.trinket_src {
            if need_divider {
                push_loadout_divider(s);
            }
            push_str(s, "        <img src=\"");
            push_escaped(s, src.as_str());
            push_str(
                s,
                "\" style=\"width:32px;height:32px;border-radius:5px;border:1px solid #4a6a3a\">\n",
            );
        }
        push_str(s, "      </div>\n");
    }

    /// Left sidebar.
    fn push_sidebar(&self, s: &mut String)
        ensures
            final(s)@ == sidebar(old(s)@, *self),
    {
        push_str(s, "    <div style=\"position:relative;width:248px;flex:none;overflow:hidden;border-right:1px solid var(--edge,#22405f)\">\n");
        push_str(s, "      <img src=\"");
        push_escaped(s, self.champion_splash_src.as_str());
        push_str(s, "\" style=\"position:absolute;inset:0;width:100%;height:100%;object-fit:cover;object-position:center 10%\">\n");
        push_str(s, "      <div style=\"position:absolute;inset:0;background:var(--overlay,linear-gradient(180deg,rgba(20,60,110,.4),rgba(6,12,20,.85) 64%,#060e18))\"></div>\n");
        push_str(s, "      <div style=\"position:relative;display:flex;align-items:flex-start;justify-content:space-between;padding:14px 14px 0\">\n");
        push_str(s, "        <span style=\"padding:5px 11px;background:var(--ribbon-bg,linear-gradient(90deg,#1c4d8c,#2f6fb8));border:1px solid var(--ribbon-edge,#c8aa6e);border-radius:5px;font:700 11px/1 Cinzel,serif;letter-spacing:.2em;color:var(--ribbon-text,#f5efe0)\">");
        push_str(s, self.result.result_label());
        push_str(s, "</span>\n");
        if let Some(g) = &self.grade {
            push_str(s, "        <div style=\"position:relative;width:52px;height:52px;display:flex;align-items:center;justify-content:center\">\n");
            push_str(s, "          <div style=\"position:absolute;inset:3px;background:var(--grade-bg,linear-gradient(150deg,#20334d,#0c1826));border:2px solid var(--grade-edge,#c8aa6e);border-radius:11px;transform:rotate(45deg);box-shadow:0 0 16px -3px rgba(120,120,120,.35)\"></div>\n");
            push_str(s, "          <span style=\"position:relative;font:700 22px/1 Cinzel,serif;color:var(--grade-text,#f5efe0)\">");
            push_escaped(s, g.as_str());
            push_str(s, "</span>\n        </div>\n");
        }
        push_str(s, "      </div>\n");
        push_str(s, "      <div style=\"position:absolute;left:0;right:0;bottom:0;padding:0 14px 14px\">\n");
        push_str(s, "        <div style=\"font:700 19px/1.1 'Noto Sans JP','Noto Sans KR','Noto Sans SC','Barlow Semi Condensed',sans-serif;color:var(--value,#f5efe0)\">");
        push_escaped(s, self.player_name.as_str());
        push_str(s, "<span style=\"color:var(--value-soft,#8aa0b8);font-weight:600;font-size:14px\">");
        push_escaped(s, self.player_tag.as_str());
        push_str(s, "</span></div>\n");
        push_str(s, "        <div style=\"display:flex;gap:6px;margin-top:7px\">\n");
        if !self.role_upper.as_str().is_empty() {
            push_str(s, "          <span style=\"display:inline-flex;align-items:center;gap:4px;padding:2px 7px;border:1px solid var(--chip-edge,#7a5a2a);border-radius:4px;font:700 9px/1.4;letter-spacing:.14em;color:var(--chip-text,#c8aa6e);text-transform:uppercase\">");
            if let Some(src) = &self.role_icon_src {
                push_str(s, "<img src=\"");
                push_escaped(s, src.as_str());
                push_str(s, "\" style=\"width:16px;height:16px;object-fit:contain;filter:brightness(0) invert(0.78)\">");
            }
            push_escaped(s, self.role_upper.as_str());
            push_str(s, "</span>\n");
        }
        push_str(s, "          <span style=\"padding:2px 7px;background:var(--chip-bg,rgba(6,12,20,.6));border:1px solid var(--chip-edge-2,#2c4864);border-radius:4px;font:700 9px/1.4;letter-spacing:.08em;color:var(--chip-text-2,#9fb4cc);text-transform:uppercase;white-space:nowrap\">");
        push_escaped(s, self.champion_name.as_str());
        if let Some(level) = self.champion_level {
            push_str(s, " \u{b7} Lvl ");
            push_signed(s, level as i64);
        }
        push_str(s, "</span>\n        </div>\n");
        push_str(s, "        <div style=\"height:1px;background:var(--footer-edge,rgba(200,170,110,.25));margin:12px 0\"></div>\n");
        if let Some(r) = &self.rank {
            self.push_ranked_block(s, r);
        } else {
            self.push_mastery_block(s);
        }
        push_str(s, "      </div>\n");
        push_str(s, "    </div>\n");
    }

    /// Ranked footer.
    fn push_ranked_block(&self, s: &mut String, rank: &RankView)
        ensures
            final(s)@ == ranked_block(old(s)@, *rank),
    {
        push_str(s, "        <div>\n");
        push_str(s, "          <div style=\"display:flex;align-items:center;gap:10px\">\n");
        if let Some(src) = &rank.emblem_src {
            push_str(s, "            <img src=\"");
            push_escaped(s, src.as_str());
            push_str(s, "\" style=\"width:52px;height:52px;flex:none;object-fit:contain;filter:drop-shadow(0 1px 5px rgba(0,0,0,.6))\">\n");
        }
        push_str(s, "            <div>\n");
        push_str(s, "              <div style=\"font:700 13px/1.1 Cinzel,serif;color:var(--value,#e6d9b8);white-space:nowrap\">");
        push_escaped(s, rank.tier.as_str());
        push_str(s, "</div>\n");
        push_str(s, "              <div style=\"font:700 11px/1;margin-top:3px;color:var(--value,#cddcec)\">");
        push_signed(s, rank.lp as i64);
        push_str(s, " LP");
        if let Some(delta) = &rank.delta {
            push_str(s, " <span style=\"color:var(--delta,#31d07f)\">(");
            push_escaped(s, delta.as_str());
            push_str(s, ")</span>");
        }
        push_str(s, "</div>\n            </div>\n");
        if let (Some(wr), Some(wins), Some(losses)) = (rank.winrate, rank.wins, rank.losses) {
            push_str(s, "            <div style=\"margin-left:auto;text-align:right\">\n");
            push_str(s, "              <div style=\"font:700 13px/1;color:var(--value,#f0e6d2)\">");
            push_signed(s, wr as i64);
            push_str(s, "% <span style=\"font-size:9px;color:var(--label,#6a8199);font-weight:600\">WR</span></div>\n");
            push_str(s, "              <div style=\"font:600 9px/1;margin-top:3px;color:var(--value-soft,#8aa0b8)\">");
            push_signed(s, wins as i64);
            push_str(s, "W \u{b7} ");
            push_signed(s, losses as i64);
            push_str(s, "L</div>\n            </div>\n");
        }
        push_str(s, "          </div>\n");
        if let Some(progress) = rank.progress {
            push_str(s, "          <div style=\"margin-top:10px;height:5px;border-radius:3px;background:var(--track,#12283f);overflow:hidden\"><div style=\"width:");
            push_signed(s, progress as i64);
            push_str(s, "%;height:100%;background:linear-gradient(90deg,#1c8f6b,#31d07f)\"></div></div>\n");
        }
        if rank.streak.len() > 0 {
            push_str(s, "          <div style=\"display:flex;gap:3px;margin-top:8px\">");
            push_streak_cells(s, &rank.streak);
            push_str(s, "</div>\n");
        }
        push_str(s, "        </div>\n");
    }

    /// Mastery / queue footer.
    fn push_mastery_block(&self, s: &mut String)
        ensures
            final(s)@ == mastery_block(old(s)@, *self),
    {
        push_str(s, "        <div style=\"display:flex;align-items:center;gap:10px\">\n");
        if let Some(mastery) = &self.mastery {
            push_str(s, "          <div style=\"width:26px;height:26px;flex:none;transform:rotate(45deg);border-radius:5px;background:linear-gradient(135deg,#e6c974,#8a6a24);border:1px solid #f0dfa0;box-shadow:0 0 10px -2px rgba(200,170,110,.5)\"></div>\n");
            push_str(s, "          <div>\n");
            push_str(s, "            <div style=\"font:700 13px/1.1 Cinzel,serif;color:var(--value,#e6d9b8)\">Mastery ");
            push_escaped(s, mastery.level.as_str());
            push_str(s, "</div>\n");
            push_str(s, "            <div style=\"font:600 10px/1;margin-top:3px;color:var(--value-soft,#9fb4cc)\">");
            push_escaped(s, mastery.points.as_str());
            push_str(s, " pts</div>\n          </div>\n");
        }
        push_str(s, "          <span style=\"margin-left:auto;padding:3px 9px;background:var(--chip-bg,rgba(6,12,20,.6));border:1px solid var(--chip-edge-2,#2c4864);border-radius:20px;font:700 9px/1.4;letter-spacing:.1em;color:var(--chip-text-2,#9fb4cc);text-transform:uppercase\">");
        push_escaped(s, self.queue_label.as_str());
        push_str(s, "</span>\n        </div>\n");
    }

    /// Main column.
    fn push_main(&self, s: &mut String)
        ensures
            final(s)@ == main_column(old(s)@, *self),
    {
        push_str(s, "    <div style=\"flex:1;min-width:0;display:flex;flex-direction:column;padding:14px 16px\">\n");
        push_str(s, "      <div style=\"display:flex;align-items:center;justify-content:space-between;margin-bottom:11px\">\n");
        push_str(s, "        <span style=\"font:700 10px/1;letter-spacing:.16em;color:var(--label,#6a8199);text-transform:uppercase\">Match Summary</span>\n");
        push_str(s, "        <span style=\"font:600 10.5px/1;letter-spacing:.05em;color:var(--value-soft,#8fb2da);text-transform:uppercase\">");
        push_escaped(s, self.meta_line.as_str());
        push_str(s, "</span>\n      </div>\n");
        push_str(s, "      <div style=\"display:flex;align-items:flex-end;gap:14px;margin-bottom:13px\">\n");
        push_str(s, "        <div style=\"font:700 38px/0.85 'Barlow Semi Condensed';color:var(--value,#f5efe0)\">");
        push_signed(s, self.kda.kills as i64);
        push_str(s, "<span style=\"color:var(--slash,#3f5470);margin:0 6px;font-weight:500\">/</span><span style=\"color:var(--death,#e84057)\">");
        push_signed(s, self.kda.deaths as i64);
        push_str(s, "</span><span style=\"color:var(--slash,#3f5470);margin:0 6px;font-weight:500\">/</span>");
        push_signed(s, self.kda.assists as i64);
        push_str(s, "</div>\n");
        push_str(s, "        <div style=\"display:flex;flex-direction:column;gap:6px;padding-bottom:3px\">\n");
        push_str(s, "          <span style=\"font:700 14px/1;color:var(--accent,#c8aa6e)\">");
        push_escaped(s, self.kda_ratio.as_str());
        push_str(s, " KDA</span>\n");
        push_str(s, "          <div style=\"display:flex;gap:6px\">\n");
        if let Some(kp) = self.kp {
            push_str(s, "            <span style=\"padding:2px 7px;border-radius:4px;background:var(--chip-bg,rgba(200,170,110,.12));border:1px solid var(--chip-edge,#7a5a2a);font:700 9.5px/1.4;letter-spacing:.08em;color:var(--chip-text,#d8c79a);white-space:nowrap;text-transform:uppercase\">");
            push_signed(s, kp as i64);
            push_str(s, "% KP</span>\n");
        }
        if let Some(multi) = &self.multi {
            if self.show_multi_chip() {
                push_str(s, "            <span style=\"padding:2px 7px;border-radius:4px;background:var(--accent,#c8aa6e);font:700 9.5px/1.4;letter-spacing:.08em;color:#1a1206;white-space:nowrap;text-transform:uppercase\">");
                push_escaped(s, multi.as_str());
                push_str(s, "</span>\n");
            }
        }
        push_str(s, "          </div>\n        </div>\n      </div>\n");
        self.push_stats_grid(s);
        self.push_loadout(s);
        if self.has_bottom() {
            self.push_bottom(s);
        }
        push_str(s, "    </div>\n");
    }

    /// The six stat panels.
    fn push_stats_grid(&self, s: &mut String)
        ensures
            final(s)@ == stats_grid(old(s)@, *self),
    {
        push_str(s, "      <div style=\"display:grid;grid-template-columns:repeat(3,1fr);gap:8px;margin-bottom:10px\">\n");
        self.push_stat_panel(s, "CS", &self.cs);
        self.push_stat_panel(s, "Gold", &self.gold);
        self.push_damage_panel(s);
        self.push_stat_panel(s, "Vision", &self.vision);
        self.push_kp_panel(s);
        self.push_multi_panel(s);
        push_str(s, "      </div>\n");
    }

    /// A value panel with its optional sub-label.
    fn push_stat_panel(&self, s: &mut String, label: &str, stat: &StatValue)
        ensures
            final(s)@ == stat_panel(old(s)@, label@, *stat),
    {
        push_panel_head(s, label);
        push_str(s, "<div style=\"font:700 19px/1 'Barlow Semi Condensed';color:var(--value,#f0e6d2)\">");
        push_escaped(s, stat.value.as_str());
        if let Some(sub) = &stat.sub {
            push_str(s, " <span style=\"font-size:10px;color:var(--label,#6a8199);font-weight:600\">");
            push_escaped(s, sub.as_str());
            push_str(s, "</span>");
        }
        push_str(s, "</div></div>\n");
    }

    /// Damage panel.
    fn push_damage_panel(&self, s: &mut String)
        ensures
            final(s)@ == damage_panel(old(s)@, *self),
    {
        push_panel_head(s, "Damage");
        push_str(s, "<div style=\"font:700 19px/1 'Barlow Semi Condensed';color:var(--value,#f0e6d2)\">");
        push_escaped(s, self.damage_value.as_str());
        push_str(s, "</div>");
        if let Some(share) = self.damage_share {
            push_str(s, "<div style=\"margin-top:5px;height:4px;border-radius:2px;background:var(--track,#12283f);overflow:hidden\"><div style=\"width:");
            push_signed(s, share as i64);
            push_str(s, "%;height:100%;background:var(--accent,#c8aa6e)\"></div></div><div style=\"margin-top:3px;font:600 9px/1;color:var(--label,#6a8199)\">");
            push_signed(s, share as i64);
            push_str(s, "% team</div>");
        }
        push_str(s, "</div>\n");
    }

    /// Kill-participation panel.
    fn push_kp_panel(&self, s: &mut String)
        ensures
            final(s)@ == kp_panel(old(s)@, *self),
    {
        push_panel_head(s, "KP");
        push_str(s, "<div style=\"font:700 19px/1 'Barlow Semi Condensed';color:var(--value,#f0e6d2)\">");
        if let Some(kp) = self.kp {
            push_signed(s, kp as i64);
            push_str(s, "%");
            if let Some(sub) = &self.kp_sub {
                push_str(s, " <span style=\"font-size:10px;color:var(--label,#6a8199);font-weight:600\">");
                push_escaped(s, sub.as_str());
                push_str(s, "</span>");
            }
        } else {
            push_str(s, "\u{2014}");
        }
        push_str(s, "</div></div>\n");
    }

    /// Multi-kill panel.
    fn push_multi_panel(&self, s: &mut String)
        ensures
            final(s)@ == multi_panel(old(s)@, *self),
    {
        push_panel_head(s, "Multi-kills");
        push_str(s, "<div style=\"font:700 15px/1 'Barlow Semi Condensed';color:var(--accent,#c8aa6e)\">");
        if let Some(multi) = &self.multi {
            push_escaped(s, multi.as_str());
            if let Some(sub) = &self.multi_sub {
                push_str(s, " <span style=\"font-size:10px;color:var(--label,#6a8199);font-weight:600\">");
                push_escaped(s, sub.as_str());
                push_str(s, "</span>");
            }
        } else {
            push_str(s, "\u{2014}");
        }
        push_str(s, "</div></div>\n");
    }

    /// Bottom row.
    fn push_bottom(&self, s: &mut String)
        ensures
            final(s)@ == bottom_row(old(s)@, *self),
    {
        push_str(s, "      <div style=\"display:flex;gap:8px\">\n");
        if let Some(m) = &self.matchup {
            self.push_matchup_panel(s, m);
        }
        if let Some(t) = &self.team {
            self.push_team_panel(s, t);
        }
        push_str(s, "      </div>\n");
    }

    /// Lane matchup panel.
    fn push_matchup_panel(&self, s: &mut String, m: &MatchupView)
        ensures
            final(s)@ == matchup_panel(old(s)@, *self, *m),
    {
        push_str(s, "        <div style=\"flex:1.5;background:var(--panel-bg,linear-gradient(180deg,#0c1e34,#07131f));border:1px solid var(--panel-edge,#1c3a58);border-radius:9px;padding:9px 12px\">\n");
        push_str(s, "          <div style=\"display:flex;align-items:center;justify-content:space-between;margin-bottom:9px\">\n");
        push_str(s, "            <span style=\"display:inline-flex;align-items:center;gap:5px;font:700 9px/1;letter-spacing:.12em;color:var(--label,#6a8199);text-transform:uppercase\">");
        if let Some(src) = &self.role_icon_src {
            push_str(s, "<img src=\"");
            push_escaped(s, src.as_str());
            push_str(s, "\" style=\"width:17px;height:17px;object-fit:contain;filter:brightness(0) invert(0.55)\">");
        }
        push_escaped(s, m.label.as_str());
        push_str(s, "</span>\n");
        push_str(s, "            <span style=\"display:flex;align-items:center;gap:6px\"><img src=\"");
        push_escaped(s, m.opp_icon_src.as_str());
        push_str(s, "\" style=\"width:18px;height:18px;border-radius:4px;border:1px solid var(--panel-edge,#4a3030)\"><span style=\"font:700 10px/1;color:var(--value,#cddcec)\">");
        push_escaped(s, m.opp_name.as_str());
        push_str(s, " ");
        push_escaped(s, m.opp_kda.as_str());
        push_str(s, "</span></span>\n          </div>\n");
        push_matchup_rows(s, &m.rows);
        push_str(s, "        </div>\n");
    }

    /// Team / objectives panel.
    fn push_team_panel(&self, s: &mut String, t: &TeamView)
        ensures
            final(s)@ == team_panel(old(s)@, *t),
    {
        push_str(s, "        <div style=\"flex:1;background:var(--panel-bg,linear-gradient(180deg,#0c1e34,#07131f));border:1px solid var(--panel-edge,#1c3a58);border-radius:9px;padding:9px 12px\">\n");
        push_str(s, "          <div style=\"font:700 9px/1;letter-spacing:.12em;color:var(--label,#6a8199);text-transform:uppercase;margin-bottom:9px\">Team \u{b7} Objectives</div>\n");
        push_str(s, "          <div style=\"display:flex;align-items:baseline;gap:6px;margin-bottom:11px\"><span style=\"font:700 22px/1;color:var(--accent-2,#31d07f)\">");
        push_signed(s, t.kills as i64);
        push_str(s, "</span><span style=\"font:700 9px/1;letter-spacing:.08em;color:var(--label,#6a8199);text-transform:uppercase\">kills \u{b7} opp. ");
        push_signed(s, t.opp_kills as i64);
        push_str(s, "</span></div>\n");
        if t.objectives.len() > 0 {
            push_str(s, "          <div style=\"display:flex;gap:13px;flex-wrap:wrap\">\n");
            push_objective_cells(s, &t.objectives);
            push_str(s, "          </div>\n");
        }
        push_str(s, "        </div>\n");
    }
}

/// Opening of a stat panel and its label.
fn push_panel_head(s: &mut String, label: &str)
    ensures
        final(s)@ == panel_head(old(s)@, label@),
{
    push_str(s, "        <div style=\"display:flex;flex-direction:column;justify-content:center;gap:6px;background:var(--panel-bg,linear-gradient(180deg,#0c1e34,#07131f));border:1px solid var(--panel-edge,#1c3a58);border-radius:9px;padding:10px 11px\">");
    push_str(s, "<div style=\"font:700 9px/1;letter-spacing:.12em;color:var(--label,#6a8199);text-transform:uppercase\">");
    push_escaped(s, label);
    push_str(s, "</div>");
}

/// Separator between two loadout groups.
fn push_loadout_divider(s: &mut String)
    ensures
        final(s)@ == old(s)@ + loadout_divider(),
{
    push_str(
        s,
        "        <div style=\"width:1px;height:28px;background:var(--divider,#24425f);margin:0 3px\"></div>\n",
    );
}

/// Streak cells, one per recent result.
fn push_streak_cells(s: &mut String, streak: &Vec<bool>)
    ensures
        final(s)@ == streak_cells(old(s)@, streak@),
{
    let ghost start = s@;
    let mut i: usize = 0;
    assert(streak@.take(0) =~= Seq::<bool>::empty());
    while i < streak.len()
        invariant
            i <= streak.len(),
            s@ == streak_cells(start, streak@.take(i as int)),
        decreases streak.len() - i,
    {
        assert(streak@.take(i + 1).drop_last() =~= streak@.take(i as int));
        let color = if streak[i] {
            "#1e9e6a"
        } else {
            "#c0455f"
        };
        push_str(s, "<span style=\"flex:1;height:5px;border-radius:2px;background:");
        push_str(s, color);
        push_str(s, "\"></span>");
        i += 1;
    }
    assert(streak@.take(streak.len() as int) =~= streak@);
}

/// Summoner-spell icons.
fn push_spell_imgs(s: &mut String, srcs: &Vec<String>)
    ensures
        final(s)@ == spell_imgs(old(s)@, srcs@),
{
    let ghost start = s@;
    let mut i: usize = 0;
    assert(srcs@.take(0) =~= Seq::<String>::empty());
    while i < srcs.len()
        invariant
            i <= srcs.len(),
            s@ == spell_imgs(start, srcs@.take(i as int)),
        decreases srcs.len() - i,
    {
        assert(srcs@.take(i + 1).drop_last() =~= srcs@.take(i as int));
        push_str(s, "        <img src=\"");
        push_escaped(s, srcs[i].as_str());
        push_str(
            s,
            "\" style=\"width:32px;height:32px;border-radius:5px;border:1px solid var(--panel-edge,#35506f)\">\n",
        );
        i += 1;
    }
    assert(srcs@.take(srcs.len() as int) =~= srcs@);
}

/// Item slots.
fn push_item_slots(s: &mut String, items: &Vec<Option<String>>)
    ensures
        final(s)@ == item_slots(old(s)@, items@),
{
    let ghost start = s@;
    let mut i: usize = 0;
    assert(items@.take(0) =~= Seq::<Option<String>>::empty());
    while i < items.len()
        invariant
            i <= items.len(),
            s@ == item_slots(start, items@.take(i as int)),
        decreases items.len() - i,
    {
        assert(items@.take(i + 1).drop_last() =~= items@.take(i as int));
        match &items[i] {
            Some(src) => {
                push_str(s, "        <img src=\"");
                push_escaped(s, src.as_str());
                push_str(
                    s,
                    "\" style=\"width:32px;height:32px;border-radius:5px;border:1px solid var(--panel-edge,#2c4864)\">\n",
                );
            },
            None => push_str(
                s,
                "        <div style=\"width:32px;height:32px;border-radius:5px;border:1px dashed var(--panel-edge,#2c4864);background:rgba(0,0,0,.22)\"></div>\n",
            ),
        }
        i += 1;
    }
    assert(items@.take(items.len() as int) =~= items@);
}

/// Matchup comparison rows.
fn push_matchup_rows(s: &mut String, rows: &Vec<MatchupRow>)
    ensures
        final(s)@ == matchup_rows(old(s)@, rows@),
{
    let ghost start = s@;
    let mut i: usize = 0;
    assert(rows@.take(0) =~= Seq::<MatchupRow>::empty());
    while i < rows.len()
        invariant
            i <= rows.len(),
            s@ == matchup_rows(start, rows@.take(i as int)),
        decreases rows.len() - i,
    {
        assert(rows@.take(i + 1).drop_last() =~= rows@.take(i as int));
        let row = &rows[i];
        let opp_pct: u8 = 100u8.saturating_sub(row.you_pct);
        push_str(
            s,
            "          <div style=\"display:flex;align-items:center;gap:7px;margin-bottom:6px\"><span style=\"width:30px;font:700 8px/1;letter-spacing:.06em;color:var(--label,#6a8199);text-transform:uppercase\">",
        );
        push_escaped(s, row.key.as_str());
        push_str(
            s,
            "</span><span style=\"width:38px;text-align:right;font:700 10px/1;color:var(--accent,#c8aa6e)\">",
        );
        push_escaped(s, row.you.as_str());
        push_str(
            s,
            "</span><div style=\"flex:1;display:flex;height:5px;border-radius:3px;overflow:hidden;background:var(--track,#0f2236)\"><div style=\"flex:",
        );
        push_signed(s, row.you_pct as i64);
        push_str(s, ";background:var(--accent,#c8aa6e)\"></div><div style=\"flex:");
        push_signed(s, opp_pct as i64);
        push_str(
            s,
            ";background:var(--track-opp,#33546f)\"></div></div><span style=\"width:32px;font:700 10px/1;color:var(--value-soft,#7d93ac)\">",
        );
        push_escaped(s, row.opp.as_str());
        push_str(s, "</span></div>\n");
        i += 1;
    }
    assert(rows@.take(rows.len() as int) =~= rows@);
}

/// Team objective cells.
fn push_objective_cells(s: &mut String, obs: &Vec<Objective>)
    ensures
        final(s)@ == objective_cells(old(s)@, obs@),
{
    let ghost start = s@;
    let mut i: usize = 0;
    assert(obs@.take(0) =~= Seq::<Objective>::empty());
    while i < obs.len()
        invariant
            i <= obs.len(),
            s@ == objective_cells(start, obs@.take(i as int)),
        decreases obs.len() - i,
    {
        assert(obs@.take(i + 1).drop_last() =~= obs@.take(i as int));
        let ob = &obs[i];
        push_str(
            s,
            "            <div style=\"display:flex;align-items:center;gap:5px\"><img src=\"",
        );
        push_escaped(s, ob.icon_src.as_str());
        push_str(
            s,
            "\" style=\"width:16px;height:16px;object-fit:contain;flex:none\"><span style=\"font:700 13px/1;color:var(--value,#e6edf5)\">",
        );
        push_signed(s, ob.count as i64);
        push_str(
            s,
            "</span><span style=\"font:600 9px/1;letter-spacing:.04em;color:var(--label,#6a8199);text-transform:uppercase\">",
        );
        push_escaped(s, ob.label.as_str());
        push_str(s, "</span></div>\n");
        i += 1;
    }
    assert(obs@.take(obs.len() as int) =~= obs@);
}

} // verus!

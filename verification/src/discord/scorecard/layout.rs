//! Laws on the layout of the card's markup: each block's markup is in the
//! document when the block's data is present.
use vstd::prelude::*;

use super::html::{
    damage_panel, document, item_slots, kp_panel, loadout_strip, main_column, mastery_block,
    matchup_panel, matchup_rows, multi_panel, objective_cells, panel_head, ranked_block, sidebar,
    spell_imgs, stat_panel, stats_grid, streak_cells, team_panel, bottom_row,
};
use super::{
    Loadout, MatchResult, MatchupRow, MatchupView, Objective, RankView, ScorecardVm, StatValue,
    TeamView,
};

verus! {

/// `t` begins with `s`.
pub open spec fn extends(s: Seq<char>, t: Seq<char>) -> bool {
    s.len() <= t.len() && t.subrange(0, s.len() as int) =~= s
}

/// `m` occurs in `d` at index `i`.
pub open spec fn occurs_at(m: Seq<char>, d: Seq<char>, i: int) -> bool {
    0 <= i && i + m.len() <= d.len() && d.subrange(i, i + m.len()) =~= m
}

/// `m` occurs in `d`.
pub open spec fn occurs(m: Seq<char>, d: Seq<char>) -> bool {
    exists|i: int| #[trigger] occurs_at(m, d, i)
}

broadcast proof fn lemma_extends_add(s: Seq<char>, t: Seq<char>, x: Seq<char>)
    requires
        extends(s, t),
    ensures
        #[trigger] extends(s, t + x),
{
    assert((t + x).subrange(0, s.len() as int) =~= t.subrange(0, s.len() as int));
}

broadcast proof fn lemma_extends_refl(s: Seq<char>)
    ensures
        #[trigger] extends(s, s),
{
    assert(s.subrange(0, s.len() as int) =~= s);
}

/// A text that begins with `u + m` holds `m`.
proof fn lemma_occurs(u: Seq<char>, m: Seq<char>, d: Seq<char>)
    requires
        extends(u + m, d),
    ensures
        occurs(m, d),
{
    let i = u.len() as int;
    assert(d.subrange(i, i + m.len()) =~= (u + m).subrange(i, i + m.len()));
    assert((u + m).subrange(i, i + m.len()) =~= m);
    assert(occurs_at(m, d, i));
}

broadcast group group_extends {
    lemma_extends_add,
    lemma_extends_refl,
}

broadcast proof fn lemma_panel_head(s: Seq<char>, t: Seq<char>, label: Seq<char>)
    requires
        extends(s, t),
    ensures
        #[trigger] extends(s, panel_head(t, label)),
{
    broadcast use group_extends;
}

broadcast proof fn lemma_stat_panel(s: Seq<char>, t: Seq<char>, label: Seq<char>, st: StatValue)
    requires
        extends(s, t),
    ensures
        #[trigger] extends(s, stat_panel(t, label, st)),
{
    broadcast use group_extends, lemma_panel_head;
}

broadcast proof fn lemma_damage_panel(s: Seq<char>, t: Seq<char>, vm: ScorecardVm)
    requires
        extends(s, t),
    ensures
        #[trigger] extends(s, damage_panel(t, vm)),
{
    broadcast use group_extends, lemma_panel_head;
}

broadcast proof fn lemma_kp_panel(s: Seq<char>, t: Seq<char>, vm: ScorecardVm)
    requires
        extends(s, t),
    ensures
        #[trigger] extends(s, kp_panel(t, vm)),
{
    broadcast use group_extends, lemma_panel_head;
}

broadcast proof fn lemma_multi_panel(s: Seq<char>, t: Seq<char>, vm: ScorecardVm)
    requires
        extends(s, t),
    ensures
        #[trigger] extends(s, multi_panel(t, vm)),
{
    broadcast use group_extends, lemma_panel_head;
}

broadcast proof fn lemma_stats_grid(s: Seq<char>, t: Seq<char>, vm: ScorecardVm)
    requires
        extends(s, t),
    ensures
        #[trigger] extends(s, stats_grid(t, vm)),
{
    broadcast use group_extends, lemma_stat_panel, lemma_damage_panel, lemma_kp_panel, lemma_multi_panel;
}

broadcast proof fn lemma_spell_imgs(s: Seq<char>, t: Seq<char>, srcs: Seq<String>)
    requires
        extends(s, t),
    ensures
        #[trigger] extends(s, spell_imgs(t, srcs)),
    decreases srcs.len(),
{
    broadcast use group_extends;
    if srcs.len() > 0 {
        lemma_spell_imgs(s, t, srcs.drop_last());
    }
}

broadcast proof fn lemma_item_slots(s: Seq<char>, t: Seq<char>, items: Seq<Option<String>>)
    requires
        extends(s, t),
    ensures
        #[trigger] extends(s, item_slots(t, items)),
    decreases items.len(),
{
    broadcast use group_extends;
    if items.len() > 0 {
        lemma_item_slots(s, t, items.drop_last());
    }
}

broadcast proof fn lemma_loadout_strip(s: Seq<char>, t: Seq<char>, l: Loadout)
    requires
        extends(s, t),
    ensures
        #[trigger] extends(s, loadout_strip(t, l)),
{
    broadcast use group_extends, lemma_spell_imgs, lemma_item_slots;
}

broadcast proof fn lemma_matchup_rows(s: Seq<char>, t: Seq<char>, rows: Seq<MatchupRow>)
    requires
        extends(s, t),
    ensures
        #[trigger] extends(s, matchup_rows(t, rows)),
    decreases rows.len(),
{
    broadcast use group_extends;
    if rows.len() > 0 {
        lemma_matchup_rows(s, t, rows.drop_last());
    }
}

broadcast proof fn lemma_matchup_panel(s: Seq<char>, t: Seq<char>, vm: ScorecardVm, m: MatchupView)
    requires
        extends(s, t),
    ensures
        #[trigger] extends(s, matchup_panel(t, vm, m)),
{
    broadcast use group_extends, lemma_matchup_rows;
}

broadcast proof fn lemma_objective_cells(s: Seq<char>, t: Seq<char>, obs: Seq<Objective>)
    requires
        extends(s, t),
    ensures
        #[trigger] extends(s, objective_cells(t, obs)),
    decreases obs.len(),
{
    broadcast use group_extends;
    if obs.len() > 0 {
        lemma_objective_cells(s, t, obs.drop_last());
    }
}

broadcast proof fn lemma_team_panel(s: Seq<char>, t: Seq<char>, tv: TeamView)
    requires
        extends(s, t),
    ensures
        #[trigger] extends(s, team_panel(t, tv)),
{
    broadcast use group_extends, lemma_objective_cells;
}

broadcast proof fn lemma_bottom_row(s: Seq<char>, t: Seq<char>, vm: ScorecardVm)
    requires
        extends(s, t),
    ensures
        #[trigger] extends(s, bottom_row(t, vm)),
{
    broadcast use group_extends, lemma_matchup_panel, lemma_team_panel;
}

broadcast proof fn lemma_main_column(s: Seq<char>, t: Seq<char>, vm: ScorecardVm)
    requires
        extends(s, t),
    ensures
        #[trigger] extends(s, main_column(t, vm)),
{
    broadcast use group_extends, lemma_stats_grid, lemma_loadout_strip, lemma_bottom_row;
}

broadcast proof fn lemma_streak_cells(s: Seq<char>, t: Seq<char>, streak: Seq<bool>)
    requires
        extends(s, t),
    ensures
        #[trigger] extends(s, streak_cells(t, streak)),
    decreases streak.len(),
{
    broadcast use group_extends;
    if streak.len() > 0 {
        lemma_streak_cells(s, t, streak.drop_last());
    }
}

broadcast proof fn lemma_ranked_block(s: Seq<char>, t: Seq<char>, r: RankView)
    requires
        extends(s, t),
    ensures
        #[trigger] extends(s, ranked_block(t, r)),
{
    broadcast use group_extends, lemma_streak_cells;
}

broadcast proof fn lemma_mastery_block(s: Seq<char>, t: Seq<char>, vm: ScorecardVm)
    requires
        extends(s, t),
    ensures
        #[trigger] extends(s, mastery_block(t, vm)),
{
    broadcast use group_extends;
}

broadcast proof fn lemma_sidebar(s: Seq<char>, t: Seq<char>, vm: ScorecardVm)
    requires
        extends(s, t),
    ensures
        #[trigger] extends(s, sidebar(t, vm)),
{
    broadcast use group_extends, lemma_ranked_block, lemma_mastery_block;
}

proof fn lemma_occurs_extends(m: Seq<char>, t: Seq<char>, d: Seq<char>)
    requires
        occurs(m, t),
        extends(t, d),
    ensures
        occurs(m, d),
{
    let i = choose|i: int| #[trigger] occurs_at(m, t, i);
    assert(d.subrange(i, i + m.len()) =~= t.subrange(i, i + m.len()));
    assert(occurs_at(m, d, i));
}

broadcast proof fn lemma_occurs_add(m: Seq<char>, t: Seq<char>, x: Seq<char>)
    requires
        occurs(m, t),
    ensures
        #[trigger] occurs(m, t + x),
{
    broadcast use group_extends;
    lemma_occurs_extends(m, t, t + x);
}

broadcast proof fn lemma_occurs_suffix(m: Seq<char>, a: Seq<char>, b: Seq<char>)
    requires
        occurs(m, b),
    ensures
        #[trigger] occurs(m, a + b),
{
    let i = choose|i: int| #[trigger] occurs_at(m, b, i);
    let j = a.len() + i;
    assert((a + b).subrange(j, j + m.len()) =~= b.subrange(i, i + m.len()));
    assert(occurs_at(m, a + b, j));
}

broadcast proof fn lemma_occurs_panel_head(m: Seq<char>, t: Seq<char>, label: Seq<char>)
    requires
        occurs(m, t),
    ensures
        #[trigger] occurs(m, panel_head(t, label)),
{
    broadcast use lemma_extends_refl;
    lemma_panel_head(t, t, label);
    lemma_occurs_extends(m, t, panel_head(t, label));
}

broadcast proof fn lemma_occurs_stat_panel(m: Seq<char>, t: Seq<char>, label: Seq<char>, st: StatValue)
    requires
        occurs(m, t),
    ensures
        #[trigger] occurs(m, stat_panel(t, label, st)),
{
    broadcast use lemma_extends_refl;
    lemma_stat_panel(t, t, label, st);
    lemma_occurs_extends(m, t, stat_panel(t, label, st));
}

broadcast proof fn lemma_occurs_damage_panel(m: Seq<char>, t: Seq<char>, vm: ScorecardVm)
    requires
        occurs(m, t),
    ensures
        #[trigger] occurs(m, damage_panel(t, vm)),
{
    broadcast use lemma_extends_refl;
    lemma_damage_panel(t, t, vm);
    lemma_occurs_extends(m, t, damage_panel(t, vm));
}

broadcast proof fn lemma_occurs_kp_panel(m: Seq<char>, t: Seq<char>, vm: ScorecardVm)
    requires
        occurs(m, t),
    ensures
        #[trigger] occurs(m, kp_panel(t, vm)),
{
    broadcast use lemma_extends_refl;
    lemma_kp_panel(t, t, vm);
    lemma_occurs_extends(m, t, kp_panel(t, vm));
}

broadcast proof fn lemma_occurs_multi_panel(m: Seq<char>, t: Seq<char>, vm: ScorecardVm)
    requires
        occurs(m, t),
    ensures
        #[trigger] occurs(m, multi_panel(t, vm)),
{
    broadcast use lemma_extends_refl;
    lemma_multi_panel(t, t, vm);
    lemma_occurs_extends(m, t, multi_panel(t, vm));
}

broadcast proof fn lemma_occurs_stats_grid(m: Seq<char>, t: Seq<char>, vm: ScorecardVm)
    requires
        occurs(m, t),
    ensures
        #[trigger] occurs(m, stats_grid(t, vm)),
{
    broadcast use lemma_extends_refl;
    lemma_stats_grid(t, t, vm);
    lemma_occurs_extends(m, t, stats_grid(t, vm));
}

broadcast proof fn lemma_occurs_spell_imgs(m: Seq<char>, t: Seq<char>, srcs: Seq<String>)
    requires
        occurs(m, t),
    ensures
        #[trigger] occurs(m, spell_imgs(t, srcs)),
{
    broadcast use lemma_extends_refl;
    lemma_spell_imgs(t, t, srcs);
    lemma_occurs_extends(m, t, spell_imgs(t, srcs));
}

broadcast proof fn lemma_occurs_item_slots(m: Seq<char>, t: Seq<char>, items: Seq<Option<String>>)
    requires
        occurs(m, t),
    ensures
        #[trigger] occurs(m, item_slots(t, items)),
{
    broadcast use lemma_extends_refl;
    lemma_item_slots(t, t, items);
    lemma_occurs_extends(m, t, item_slots(t, items));
}

broadcast proof fn lemma_occurs_loadout_strip(m: Seq<char>, t: Seq<char>, l: Loadout)
    requires
        occurs(m, t),
    ensures
        #[trigger] occurs(m, loadout_strip(t, l)),
{
    broadcast use lemma_extends_refl;
    lemma_loadout_strip(t, t, l);
    lemma_occurs_extends(m, t, loadout_strip(t, l));
}

broadcast proof fn lemma_occurs_matchup_rows(m: Seq<char>, t: Seq<char>, rows: Seq<MatchupRow>)
    requires
        occurs(m, t),
    ensures
        #[trigger] occurs(m, matchup_rows(t, rows)),
{
    broadcast use lemma_extends_refl;
    lemma_matchup_rows(t, t, rows);
    lemma_occurs_extends(m, t, matchup_rows(t, rows));
}

broadcast proof fn lemma_occurs_matchup_panel(m: Seq<char>, t: Seq<char>, vm: ScorecardVm, mv: MatchupView)
    requires
        occurs(m, t),
    ensures
        #[trigger] occurs(m, matchup_panel(t, vm, mv)),
{
    broadcast use lemma_extends_refl;
    lemma_matchup_panel(t, t, vm, mv);
    lemma_occurs_extends(m, t, matchup_panel(t, vm, mv));
}

broadcast proof fn lemma_occurs_objective_cells(m: Seq<char>, t: Seq<char>, obs: Seq<Objective>)
    requires
        occurs(m, t),
    ensures
        #[trigger] occurs(m, objective_cells(t, obs)),
{
    broadcast use lemma_extends_refl;
    lemma_objective_cells(t, t, obs);
    lemma_occurs_extends(m, t, objective_cells(t, obs));
}

broadcast proof fn lemma_occurs_team_panel(m: Seq<char>, t: Seq<char>, tv: TeamView)
    requires
        occurs(m, t),
    ensures
        #[trigger] occurs(m, team_panel(t, tv)),
{
    broadcast use lemma_extends_refl;
    lemma_team_panel(t, t, tv);
    lemma_occurs_extends(m, t, team_panel(t, tv));
}

broadcast proof fn lemma_occurs_bottom_row(m: Seq<char>, t: Seq<char>, vm: ScorecardVm)
    requires
        occurs(m, t),
    ensures
        #[trigger] occurs(m, bottom_row(t, vm)),
{
    broadcast use lemma_extends_refl;
    lemma_bottom_row(t, t, vm);
    lemma_occurs_extends(m, t, bottom_row(t, vm));
}

broadcast proof fn lemma_occurs_main_column(m: Seq<char>, t: Seq<char>, vm: ScorecardVm)
    requires
        occurs(m, t),
    ensures
        #[trigger] occurs(m, main_column(t, vm)),
{
    broadcast use lemma_extends_refl;
    lemma_main_column(t, t, vm);
    lemma_occurs_extends(m, t, main_column(t, vm));
}

broadcast proof fn lemma_occurs_streak_cells(m: Seq<char>, t: Seq<char>, streak: Seq<bool>)
    requires
        occurs(m, t),
    ensures
        #[trigger] occurs(m, streak_cells(t, streak)),
{
    broadcast use lemma_extends_refl;
    lemma_streak_cells(t, t, streak);
    lemma_occurs_extends(m, t, streak_cells(t, streak));
}

broadcast proof fn lemma_occurs_ranked_block(m: Seq<char>, t: Seq<char>, r: RankView)
    requires
        occurs(m, t),
    ensures
        #[trigger] occurs(m, ranked_block(t, r)),
{
    broadcast use lemma_extends_refl;
    lemma_ranked_block(t, t, r);
    lemma_occurs_extends(m, t, ranked_block(t, r));
}

broadcast proof fn lemma_occurs_mastery_block(m: Seq<char>, t: Seq<char>, vm: ScorecardVm)
    requires
        occurs(m, t),
    ensures
        #[trigger] occurs(m, mastery_block(t, vm)),
{
    broadcast use lemma_extends_refl;
    lemma_mastery_block(t, t, vm);
    lemma_occurs_extends(m, t, mastery_block(t, vm));
}

broadcast proof fn lemma_occurs_sidebar(m: Seq<char>, t: Seq<char>, vm: ScorecardVm)
    requires
        occurs(m, t),
    ensures
        #[trigger] occurs(m, sidebar(t, vm)),
{
    broadcast use lemma_extends_refl;
    lemma_sidebar(t, t, vm);
    lemma_occurs_extends(m, t, sidebar(t, vm));
}

proof fn lemma_marker_kp()
    ensures
        occurs("% KP"@, "% KP</span>\n"@),
{
    reveal_strlit("% KP");
    reveal_strlit("% KP</span>\n");
    assert("% KP</span>\n"@.subrange(0, 4) =~= "% KP"@);
    assert(occurs_at("% KP"@, "% KP</span>\n"@, 0));
}

proof fn lemma_marker_multi()
    ensures
        occurs("color:#1a1206"@, "            <span style=\"padding:2px 7px;border-radius:4px;background:var(--accent,#c8aa6e);font:700 9.5px/1.4;letter-spacing:.08em;color:#1a1206;white-space:nowrap;text-transform:uppercase\">"@),
{
    reveal_strlit("color:#1a1206");
    reveal_strlit("            <span style=\"padding:2px 7px;border-radius:4px;background:var(--accent,#c8aa6e);font:700 9.5px/1.4;letter-spacing:.08em;color:#1a1206;white-space:nowrap;text-transform:uppercase\">");
    assert("            <span style=\"padding:2px 7px;border-radius:4px;background:var(--accent,#c8aa6e);font:700 9.5px/1.4;letter-spacing:.08em;color:#1a1206;white-space:nowrap;text-transform:uppercase\">"@.subrange(132, 145) =~= "color:#1a1206"@);
    assert(occurs_at("color:#1a1206"@, "            <span style=\"padding:2px 7px;border-radius:4px;background:var(--accent,#c8aa6e);font:700 9.5px/1.4;letter-spacing:.08em;color:#1a1206;white-space:nowrap;text-transform:uppercase\">"@, 132));
}

proof fn lemma_marker_grade()
    ensures
        occurs("var(--grade-bg"@, "          <div style=\"position:absolute;inset:3px;background:var(--grade-bg,linear-gradient(150deg,#20334d,#0c1826));border:2px solid var(--grade-edge,#c8aa6e);border-radius:11px;transform:rotate(45deg);box-shadow:0 0 16px -3px rgba(120,120,120,.35)\"></div>\n"@),
{
    reveal_strlit("var(--grade-bg");
    reveal_strlit("          <div style=\"position:absolute;inset:3px;background:var(--grade-bg,linear-gradient(150deg,#20334d,#0c1826));border:2px solid var(--grade-edge,#c8aa6e);border-radius:11px;transform:rotate(45deg);box-shadow:0 0 16px -3px rgba(120,120,120,.35)\"></div>\n");
    assert("          <div style=\"position:absolute;inset:3px;background:var(--grade-bg,linear-gradient(150deg,#20334d,#0c1826));border:2px solid var(--grade-edge,#c8aa6e);border-radius:11px;transform:rotate(45deg);box-shadow:0 0 16px -3px rgba(120,120,120,.35)\"></div>\n"@.subrange(61, 75) =~= "var(--grade-bg"@);
    assert(occurs_at("var(--grade-bg"@, "          <div style=\"position:absolute;inset:3px;background:var(--grade-bg,linear-gradient(150deg,#20334d,#0c1826));border:2px solid var(--grade-edge,#c8aa6e);border-radius:11px;transform:rotate(45deg);box-shadow:0 0 16px -3px rgba(120,120,120,.35)\"></div>\n"@, 61));
}

proof fn lemma_marker_mastery()
    ensures
        occurs("Mastery "@, "            <div style=\"font:700 13px/1.1 Cinzel,serif;color:var(--value,#e6d9b8)\">Mastery "@),
{
    reveal_strlit("Mastery ");
    reveal_strlit("            <div style=\"font:700 13px/1.1 Cinzel,serif;color:var(--value,#e6d9b8)\">Mastery ");
    assert("            <div style=\"font:700 13px/1.1 Cinzel,serif;color:var(--value,#e6d9b8)\">Mastery "@.subrange(83, 91) =~= "Mastery "@);
    assert(occurs_at("Mastery "@, "            <div style=\"font:700 13px/1.1 Cinzel,serif;color:var(--value,#e6d9b8)\">Mastery "@, 83));
}

proof fn lemma_marker_team()
    ensures
        occurs("Team \u{b7} Objectives"@, "          <div style=\"font:700 9px/1;letter-spacing:.12em;color:var(--label,#6a8199);text-transform:uppercase;margin-bottom:9px\">Team \u{b7} Objectives</div>\n"@),
{
    reveal_strlit("Team \u{b7} Objectives");
    reveal_strlit("          <div style=\"font:700 9px/1;letter-spacing:.12em;color:var(--label,#6a8199);text-transform:uppercase;margin-bottom:9px\">Team \u{b7} Objectives</div>\n");
    assert("          <div style=\"font:700 9px/1;letter-spacing:.12em;color:var(--label,#6a8199);text-transform:uppercase;margin-bottom:9px\">Team \u{b7} Objectives</div>\n"@.subrange(129, 146) =~= "Team \u{b7} Objectives"@);
    assert(occurs_at("Team \u{b7} Objectives"@, "          <div style=\"font:700 9px/1;letter-spacing:.12em;color:var(--label,#6a8199);text-transform:uppercase;margin-bottom:9px\">Team \u{b7} Objectives</div>\n"@, 129));
}

proof fn lemma_marker_matchup()
    ensures
        occurs("flex:1.5"@, "        <div style=\"flex:1.5;background:var(--panel-bg,linear-gradient(180deg,#0c1e34,#07131f));border:1px solid var(--panel-edge,#1c3a58);border-radius:9px;padding:9px 12px\">\n"@),
{
    reveal_strlit("flex:1.5");
    reveal_strlit("        <div style=\"flex:1.5;background:var(--panel-bg,linear-gradient(180deg,#0c1e34,#07131f));border:1px solid var(--panel-edge,#1c3a58);border-radius:9px;padding:9px 12px\">\n");
    assert("        <div style=\"flex:1.5;background:var(--panel-bg,linear-gradient(180deg,#0c1e34,#07131f));border:1px solid var(--panel-edge,#1c3a58);border-radius:9px;padding:9px 12px\">\n"@.subrange(20, 28) =~= "flex:1.5"@);
    assert(occurs_at("flex:1.5"@, "        <div style=\"flex:1.5;background:var(--panel-bg,linear-gradient(180deg,#0c1e34,#07131f));border:1px solid var(--panel-edge,#1c3a58);border-radius:9px;padding:9px 12px\">\n"@, 20));
}

proof fn lemma_marker_root()
    ensures
        occurs("id=\"card-root\""@, "<div id=\"card-root\" style=\""@),
{
    reveal_strlit("id=\"card-root\"");
    reveal_strlit("<div id=\"card-root\" style=\"");
    assert("<div id=\"card-root\" style=\""@.subrange(5, 19) =~= "id=\"card-root\""@);
    assert(occurs_at("id=\"card-root\""@, "<div id=\"card-root\" style=\""@, 5));
}

/// Each optional block of the card is in its markup when its data is
/// present: the `#card-root` element always; the grade badge with a grade;
/// the kill-participation chip with a KP; the multi-kill chip with a
/// multi-kill outside a remake; the mastery block outside ranked with a
/// mastery; the team panel with team stats; the matchup panel with a
/// matchup. (Each marker below is a piece of markup found only in that
/// block's template.)
pub proof fn lemma_blocks_shown_with_their_data(vm: ScorecardVm)
    ensures
        occurs("id=\"card-root\""@, document(vm)),
        vm.grade is Some ==> occurs("var(--grade-bg"@, document(vm)),
        vm.kp is Some ==> occurs("% KP"@, document(vm)),
        vm.multi is Some && vm.result != MatchResult::Remake ==> occurs("color:#1a1206"@, document(vm)),
        vm.rank is None && vm.mastery is Some ==> occurs("Mastery "@, document(vm)),
        vm.team is Some ==> occurs("Team \u{b7} Objectives"@, document(vm)),
        vm.matchup is Some ==> occurs("flex:1.5"@, document(vm)),
{
    broadcast use lemma_occurs_add, lemma_occurs_suffix, lemma_occurs_panel_head, lemma_occurs_stat_panel, lemma_occurs_damage_panel, lemma_occurs_kp_panel, lemma_occurs_multi_panel, lemma_occurs_stats_grid, lemma_occurs_spell_imgs, lemma_occurs_item_slots, lemma_occurs_loadout_strip, lemma_occurs_matchup_rows, lemma_occurs_matchup_panel, lemma_occurs_objective_cells, lemma_occurs_team_panel, lemma_occurs_bottom_row, lemma_occurs_main_column, lemma_occurs_streak_cells, lemma_occurs_ranked_block, lemma_occurs_mastery_block, lemma_occurs_sidebar;
    lemma_marker_kp();
    lemma_marker_multi();
    lemma_marker_grade();
    lemma_marker_mastery();
    lemma_marker_team();
    lemma_marker_matchup();
    lemma_marker_root();
}

} // verus!

verus! {

/// Each streak cell shows its result: after the cells of the earlier
/// results, a win adds a cell coloured green (`#1e9e6a`) and a loss one
/// coloured red (`#c0455f`).
pub proof fn lemma_streak_cell_colours(s: Seq<char>, st: Seq<bool>, win: bool)
    ensures
        extends(streak_cells(s, st), streak_cells(s, st.push(win))),
        win ==> occurs(
            "#1e9e6a"@,
            streak_cells(s, st.push(win)).subrange(
                streak_cells(s, st).len() as int,
                streak_cells(s, st.push(win)).len() as int,
            ),
        ),
        !win ==> occurs(
            "#c0455f"@,
            streak_cells(s, st.push(win)).subrange(
                streak_cells(s, st).len() as int,
                streak_cells(s, st.push(win)).len() as int,
            ),
        ),
{
    let all = st.push(win);
    assert(all.drop_last() =~= st);
    assert(all.last() == win);
    let before = streak_cells(s, st);
    let head = "<span style=\"flex:1;height:5px;border-radius:2px;background:"@;
    let colour = if win { "#1e9e6a"@ } else { "#c0455f"@ };
    let tail = "\"></span>"@;
    let after = streak_cells(s, all);
    assert(after == before + head + colour + tail);
    let cell = after.subrange(before.len() as int, after.len() as int);
    assert(cell =~= head + colour + tail);
    assert(after.subrange(0, before.len() as int) =~= before);
    let i = head.len() as int;
    assert(cell.subrange(i, i + colour.len()) =~= colour);
    assert(occurs_at(colour, cell, i));
}

} // verus!

//! Data Dragon lookup tables: summoner-spell keys, rune and rune-style icons,
//! champion ids, and the asset URLs built from them.
//!
//! The tables are fetched once at start-up; a failed fetch leaves a table
//! empty, which only omits the corresponding icons.
use vstd::prelude::*;

use crate::parse::{parse_int, parse_int_in};
use crate::table::{
    assoc_map, first_ci_key, int_view, keys_unique, name_find_ignore_case, name_get, name_insert, name_view,
    table_get, table_insert,
};
use crate::text::{eq_ignore_ascii_case_spec, push_str, string_of};

verus! {

/// Data Dragon CDN root (no trailing slash).
pub open spec fn ddragon_cdn() -> Seq<char> {
    "https://ddragon.leagueoflegends.com/cdn"@
}

/// Versioned summoner-spell icon URL.
pub open spec fn spell_url(version: Seq<char>, id: Seq<char>) -> Seq<char> {
    ddragon_cdn() + "/"@ + version + "/img/spell/"@ + id + ".png"@
}

/// Versionless image URL of a rune or rune-style icon path.
pub open spec fn icon_url(icon: Seq<char>) -> Seq<char> {
    ddragon_cdn() + "/img/"@ + icon
}

/// Lookup tables indexed from Data Dragon, plus the CDN version they belong to.
#[derive(Debug)]
pub struct DdragonData {
    version: String,
    /// Summoner-spell numeric key -> Data Dragon id (`4` -> `SummonerFlash`).
    spells: Vec<(i32, String)>,
    /// Rune id -> icon path.
    rune_icons: Vec<(i32, String)>,
    /// Rune style id -> icon path.
    style_icons: Vec<(i32, String)>,
    /// Champion key -> numeric champion id (`Ahri` -> `103`).
    champion_ids: Vec<(String, i64)>,
}

/// One summoner spell of `summoner.json`: numeric key (text) and id.
#[derive(Debug, Clone)]
pub struct SummonerSpell {
    pub key: String,
    pub id: String,
}

/// One rune style of `runesReforged.json`.
#[derive(Debug, Clone)]
pub struct RuneStyle {
    pub id: i32,
    pub icon: String,
    pub slots: Vec<RuneSlot>,
}

/// One row of runes of a style.
#[derive(Debug, Clone)]
pub struct RuneSlot {
    pub runes: Vec<RuneEntry>,
}

/// One rune.
#[derive(Debug, Clone)]
pub struct RuneEntry {
    pub id: i32,
    pub icon: String,
}

/// One champion of `champion.json`: key (`Ahri`) and numeric id (text).
#[derive(Debug, Clone)]
pub struct ChampionEntry {
    pub id: String,
    pub key: String,
}

/// Spell pairs whose key parses as an `i32`, in order.
pub open spec fn spell_pairs(s: Seq<SummonerSpell>) -> Seq<(i32, Seq<char>)>
    decreases s.len(),
{
    if s.len() == 0 {
        Seq::empty()
    } else {
        let rest = spell_pairs(s.drop_last());
        match parse_int(s.last().key@, i32::MIN as int, i32::MAX as int) {
            Some(k) => rest.push((k as i32, s.last().id@)),
            None => rest,
        }
    }
}

/// Champion pairs whose id parses as an `i64`, in order.
pub open spec fn champion_pairs(s: Seq<ChampionEntry>) -> Seq<(Seq<char>, i64)>
    decreases s.len(),
{
    if s.len() == 0 {
        Seq::empty()
    } else {
        let rest = champion_pairs(s.drop_last());
        match parse_int(s.last().key@, i64::MIN as int, i64::MAX as int) {
            Some(k) => rest.push((s.last().id@, k as i64)),
            None => rest,
        }
    }
}

/// `(id, icon)` of every rune of a run of rune entries.
pub open spec fn entry_pairs(es: Seq<RuneEntry>) -> Seq<(i32, Seq<char>)> {
    es.map_values(|e: RuneEntry| (e.id, e.icon@))
}

/// Rune pairs of a run of slots, in order.
pub open spec fn slot_pairs(ss: Seq<RuneSlot>) -> Seq<(i32, Seq<char>)>
    decreases ss.len(),
{
    if ss.len() == 0 {
        Seq::empty()
    } else {
        slot_pairs(ss.drop_last()) + entry_pairs(ss.last().runes@)
    }
}

/// Rune pairs of a run of styles, in order.
pub open spec fn rune_pairs(st: Seq<RuneStyle>) -> Seq<(i32, Seq<char>)>
    decreases st.len(),
{
    if st.len() == 0 {
        Seq::empty()
    } else {
        rune_pairs(st.drop_last()) + slot_pairs(st.last().slots@)
    }
}

/// `(id, icon)` of each style, in order.
pub open spec fn style_pairs(st: Seq<RuneStyle>) -> Seq<(i32, Seq<char>)> {
    st.map_values(|s: RuneStyle| (s.id, s.icon@))
}

impl DdragonData {
    #[verifier::type_invariant]
    spec fn tables_wf(self) -> bool {
        &&& keys_unique(self.spells@)
        &&& keys_unique(self.rune_icons@)
        &&& keys_unique(self.style_icons@)
        &&& keys_unique(name_view(self.champion_ids@))
    }

    /// The CDN version the tables belong to.
    pub closed spec fn version_view(self) -> Seq<char> {
        self.version@
    }

    /// Summoner-spell key -> id.
    pub closed spec fn spells_map(self) -> Map<i32, Seq<char>> {
        assoc_map(int_view(self.spells@))
    }

    /// Rune id -> icon path.
    pub closed spec fn runes_map(self) -> Map<i32, Seq<char>> {
        assoc_map(int_view(self.rune_icons@))
    }

    /// Rune style id -> icon path.
    pub closed spec fn styles_map(self) -> Map<i32, Seq<char>> {
        assoc_map(int_view(self.style_icons@))
    }

    /// Champion key -> champion id.
    pub closed spec fn champions_map(self) -> Map<Seq<char>, i64> {
        assoc_map(name_view(self.champion_ids@))
    }

    /// The Data Dragon key a match-v5 `championName` resolves to: the name
    /// itself when it is a key; otherwise the first key equal to it up to
    /// ASCII case; otherwise the name unchanged.
    pub closed spec fn key_for(self, name: Seq<char>) -> Seq<char> {
        if self.champions_map().contains_key(name) {
            name
        } else {
            match first_ci_key(name_view(self.champion_ids@), name) {
                Some(k) => k,
                None => name,
            }
        }
    }

    /// Tables built by inserting the given pairs in order (a later pair
    /// overrides an earlier one with the same key).
    pub fn from_pairs(
        version: String,
        spells: Vec<(i32, String)>,
        runes: Vec<(i32, String)>,
        styles: Vec<(i32, String)>,
        champions: Vec<(String, i64)>,
    ) -> (r: DdragonData)
        ensures
            r.version_view() == version@,
            r.spells_map() == assoc_map(int_view(spells@)),
            r.runes_map() == assoc_map(int_view(runes@)),
            r.styles_map() == assoc_map(int_view(styles@)),
            r.champions_map() == assoc_map(name_view(champions@)),
    {
        let s = build_int_table(spells);
        let ru = build_int_table(runes);
        let st = build_int_table(styles);
        let c = build_name_table(champions);
        DdragonData { version, spells: s, rune_icons: ru, style_icons: st, champion_ids: c }
    }

    /// The CDN version (also used in versioned URLs).
    pub fn version(&self) -> (r: &str)
        ensures
            r@ == self.version_view(),
    {
        self.version.as_str()
    }

    /// Versioned summoner-spell icon URL for a numeric key (`4` -> Flash), if known.
    pub fn spell_src(&self, key: i32) -> (r: Option<String>)
        ensures
            match r {
                Some(u) => self.spells_map().contains_key(key) && u@ == spell_url(
                    self.version_view(),
                    self.spells_map()[key],
                ),
                None => !self.spells_map().contains_key(key),
            },
    {
        proof {
            use_type_invariant(self);
        }
        let id = table_get(&self.spells, key)?;
        let mut u = string_of("https://ddragon.leagueoflegends.com/cdn");
        push_str(&mut u, "/");
        push_str(&mut u, self.version.as_str());
        push_str(&mut u, "/img/spell/");
        push_str(&mut u, id.as_str());
        push_str(&mut u, ".png");
        Some(u)
    }

    /// Versionless keystone icon URL for a rune id, if known.
    pub fn keystone_src(&self, perk_id: i32) -> (r: Option<String>)
        ensures
            match r {
                Some(u) => self.runes_map().contains_key(perk_id) && u@ == icon_url(
                    self.runes_map()[perk_id],
                ),
                None => !self.runes_map().contains_key(perk_id),
            },
    {
        proof {
            use_type_invariant(self);
        }
        let icon = table_get(&self.rune_icons, perk_id)?;
        Some(icon_src(icon.as_str()))
    }

    /// Versionless secondary-tree icon URL for a rune style id, if known.
    pub fn secondary_src(&self, style_id: i32) -> (r: Option<String>)
        ensures
            match r {
                Some(u) => self.styles_map().contains_key(style_id) && u@ == icon_url(
                    self.styles_map()[style_id],
                ),
                None => !self.styles_map().contains_key(style_id),
            },
    {
        proof {
            use_type_invariant(self);
        }
        let icon = table_get(&self.style_icons, style_id)?;
        Some(icon_src(icon.as_str()))
    }

    /// Canonical Data Dragon key for a match-v5 `championName`: the name
    /// itself when it is a key; otherwise a key equal to it up to ASCII case
    /// (match-v5 sends `FiddleSticks`, Data Dragon has `Fiddlesticks`);
    /// otherwise the name unchanged.
    pub fn champion_key(&self, champion_name: &str) -> (r: String)
        ensures
            r@ == self.key_for(champion_name@),
            self.champions_map().contains_key(champion_name@) ==> r@ == champion_name@,
            !self.champions_map().contains_key(champion_name@) && (exists|k: Seq<char>|
                self.champions_map().contains_key(k) && eq_ignore_ascii_case_spec(
                    k,
                    champion_name@,
                )) ==> self.champions_map().contains_key(r@) && eq_ignore_ascii_case_spec(
                r@,
                champion_name@,
            ),
            !(exists|k: Seq<char>|
                self.champions_map().contains_key(k) && eq_ignore_ascii_case_spec(
                    k,
                    champion_name@,
                )) ==> r@ == champion_name@,
    {
        proof {
            use_type_invariant(self);
        }
        if name_get(&self.champion_ids, champion_name).is_some() {
            return string_of(champion_name);
        }
        match name_find_ignore_case(&self.champion_ids, champion_name) {
            Some(k) => {
                proof {
                    let i = choose|i: int|
                        0 <= i < self.champion_ids@.len() && #[trigger] name_view(
                            self.champion_ids@,
                        )[i].0 == k@ && eq_ignore_ascii_case_spec(k@, champion_name@);
                    crate::table::lemma_assoc_map_index(name_view(self.champion_ids@), i);
                }
                k
            },
            None => {
                proof {
                    assert forall|k: Seq<char>|
                        self.champions_map().contains_key(k) implies !eq_ignore_ascii_case_spec(
                        k,
                        champion_name@,
                    ) by {
                        crate::table::lemma_assoc_map_dom(name_view(self.champion_ids@), k);
                    }
                }
                string_of(champion_name)
            },
        }
    }

    /// Numeric champion id for a champion name, resolved through
    /// [`Self::champion_key`]; `None` when that key is unknown.
    pub fn champion_id(&self, champion_name: &str) -> (r: Option<i64>)
        ensures
            r == (if self.champions_map().contains_key(self.key_for(champion_name@)) {
                Some(self.champions_map()[self.key_for(champion_name@)])
            } else {
                None
            }),
            self.champions_map().contains_key(champion_name@) ==> r == Some(
                self.champions_map()[champion_name@],
            ),
            !(exists|k: Seq<char>|
                self.champions_map().contains_key(k) && eq_ignore_ascii_case_spec(
                    k,
                    champion_name@,
                )) ==> r is None,
            r matches Some(v) ==> exists|k: Seq<char>|
                self.champions_map().contains_key(k) && eq_ignore_ascii_case_spec(
                    k,
                    champion_name@,
                ) && self.champions_map()[k] == v,
    {
        proof {
            use_type_invariant(self);
        }
        let key = self.champion_key(champion_name);
        let r = name_get(&self.champion_ids, key.as_str());
        proof {
            if self.champions_map().contains_key(champion_name@) {
                crate::text::lemma_eq_ignore_ascii_case_refl(champion_name@);
            }
        }
        r
    }

    /// A fixed table for examples and tests (no network): Flash and Smite,
    /// Conqueror, the Precision and Domination trees, Ahri, Viego and
    /// Fiddlesticks.
    pub fn stub(version: &str) -> (r: DdragonData)
        ensures
            r.version_view() == version@,
            r.spells_map() == assoc_map(
                seq![(4i32, "SummonerFlash"@), (11i32, "SummonerSmite"@)],
            ),
            r.runes_map() == assoc_map(
                seq![(8010i32, "perk-images/Styles/Precision/Conqueror/Conqueror.png"@)],
            ),
            r.styles_map() == assoc_map(
                seq![
                    (8000i32, "perk-images/Styles/7201_Precision.png"@),
                    (8100i32, "perk-images/Styles/7200_Domination.png"@),
                ],
            ),
            r.champions_map() == assoc_map(
                seq![("Ahri"@, 103i64), ("Viego"@, 234i64), ("Fiddlesticks"@, 9i64)],
            ),
    {
        let spells = vec![(4i32, string_of("SummonerFlash")), (11i32, string_of("SummonerSmite"))];
        let runes = vec![(8010i32, string_of("perk-images/Styles/Precision/Conqueror/Conqueror.png"))];
        let styles = vec![
            (8000i32, string_of("perk-images/Styles/7201_Precision.png")),
            (8100i32, string_of("perk-images/Styles/7200_Domination.png")),
        ];
        let champions = vec![
            (string_of("Ahri"), 103i64),
            (string_of("Viego"), 234i64),
            (string_of("Fiddlesticks"), 9i64),
        ];
        assert(int_view(spells@) =~= seq![(4i32, "SummonerFlash"@), (11i32, "SummonerSmite"@)]);
        assert(int_view(runes@) =~= seq![
            (8010i32, "perk-images/Styles/Precision/Conqueror/Conqueror.png"@),
        ]);
        assert(int_view(styles@) =~= seq![
            (8000i32, "perk-images/Styles/7201_Precision.png"@),
            (8100i32, "perk-images/Styles/7200_Domination.png"@),
        ]);
        assert(name_view(champions@) =~= seq![
            ("Ahri"@, 103i64),
            ("Viego"@, 234i64),
            ("Fiddlesticks"@, 9i64),
        ]);
        DdragonData::from_pairs(string_of(version), spells, runes, styles, champions)
    }
}

fn icon_src(icon: &str) -> (r: String)
    ensures
        r@ == icon_url(icon@),
{
    let mut u = string_of("https://ddragon.leagueoflegends.com/cdn");
    push_str(&mut u, "/img/");
    push_str(&mut u, icon);
    u
}

fn build_int_table(pairs: Vec<(i32, String)>) -> (t: Vec<(i32, String)>)
    ensures
        keys_unique(t@),
        assoc_map(int_view(t@)) == assoc_map(int_view(pairs@)),
{
    let mut t: Vec<(i32, String)> = Vec::new();
    let mut i: usize = 0;
    let n = pairs.len();
    let ghost orig = pairs@;
    assert(int_view(orig.take(0)) =~= Seq::<(i32, Seq<char>)>::empty());
    assert(int_view(t@) =~= Seq::<(i32, Seq<char>)>::empty());
    while i < n
        invariant
            i <= n,
            n == orig.len(),
            orig == pairs@,
            keys_unique(t@),
            assoc_map(int_view(t@)) == assoc_map(int_view(orig.take(i as int))),
        decreases n - i,
    {
        let k = pairs[i].0;
        let v = pairs[i].1.clone();
        proof {
            assert(int_view(orig.take(i + 1)).drop_last() =~= int_view(orig.take(i as int)));
            assert(int_view(orig.take(i + 1)).last() == (k, v@));
        }
        table_insert(&mut t, k, v);
        i += 1;
    }
    assert(orig.take(n as int) =~= orig);
    t
}

fn build_name_table(pairs: Vec<(String, i64)>) -> (t: Vec<(String, i64)>)
    ensures
        keys_unique(name_view(t@)),
        assoc_map(name_view(t@)) == assoc_map(name_view(pairs@)),
{
    let mut t: Vec<(String, i64)> = Vec::new();
    let mut i: usize = 0;
    let n = pairs.len();
    let ghost orig = pairs@;
    assert(name_view(orig.take(0)) =~= Seq::<(Seq<char>, i64)>::empty());
    assert(name_view(t@) =~= Seq::<(Seq<char>, i64)>::empty());
    while i < n
        invariant
            i <= n,
            n == orig.len(),
            orig == pairs@,
            keys_unique(name_view(t@)),
            assoc_map(name_view(t@)) == assoc_map(name_view(orig.take(i as int))),
        decreases n - i,
    {
        let k = pairs[i].0.clone();
        let v = pairs[i].1;
        proof {
            assert(name_view(orig.take(i + 1)).drop_last() =~= name_view(orig.take(i as int)));
            assert(name_view(orig.take(i + 1)).last() == (k@, v));
        }
        name_insert(&mut t, k, v);
        i += 1;
    }
    assert(orig.take(n as int) =~= orig);
    t
}

/// Spell pairs of `summoner.json` entries (entries whose key is not an
/// `i32` are skipped).
pub fn index_spells(spells: &Vec<SummonerSpell>) -> (r: Vec<(i32, String)>)
    ensures
        int_view(r@) == spell_pairs(spells@),
{
    let mut r: Vec<(i32, String)> = Vec::new();
    let mut i: usize = 0;
    assert(int_view(r@) =~= spell_pairs(spells@.take(0)));
    while i < spells.len()
        invariant
            i <= spells.len(),
            int_view(r@) == spell_pairs(spells@.take(i as int)),
        decreases spells.len() - i,
    {
        assert(spells@.take(i + 1).drop_last() =~= spells@.take(i as int));
        if let Some(k) = parse_int_in(spells[i].key.as_str(), i32::MIN as i64, i32::MAX as i64) {
            proof {
                assert(int_view(r@.push((k as i32, spells[i as int].id))) =~= int_view(r@).push((k as i32, spells[i as int].id@)));
            }
            r.push((k as i32, spells[i].id.clone()));
        }
        i += 1;
    }
    assert(spells@.take(spells.len() as int) =~= spells@);
    r
}

/// Champion pairs of `champion.json` entries (entries whose id is not an
/// `i64` are skipped).
pub fn index_champions(champions: &Vec<ChampionEntry>) -> (r: Vec<(String, i64)>)
    ensures
        name_view(r@) == champion_pairs(champions@),
{
    let mut r: Vec<(String, i64)> = Vec::new();
    let mut i: usize = 0;
    assert(name_view(r@) =~= champion_pairs(champions@.take(0)));
    while i < champions.len()
        invariant
            i <= champions.len(),
            name_view(r@) == champion_pairs(champions@.take(i as int)),
        decreases champions.len() - i,
    {
        assert(champions@.take(i + 1).drop_last() =~= champions@.take(i as int));
        if let Some(k) = parse_int_in(champions[i].key.as_str(), i64::MIN, i64::MAX) {
            proof {
                assert(name_view(r@.push((champions[i as int].id, k))) =~= name_view(r@).push((champions[i as int].id@, k)));
            }
            r.push((champions[i].id.clone(), k));
        }
        i += 1;
    }
    assert(champions@.take(champions.len() as int) =~= champions@);
    r
}

fn push_entry_pairs(r: &mut Vec<(i32, String)>, es: &Vec<RuneEntry>)
    ensures
        int_view(final(r)@) == int_view(old(r)@) + entry_pairs(es@),
{
    let mut i: usize = 0;
    let ghost start = int_view(r@);
    assert(entry_pairs(es@.take(0)) =~= Seq::<(i32, Seq<char>)>::empty());
    while i < es.len()
        invariant
            i <= es.len(),
            int_view(r@) == start + entry_pairs(es@.take(i as int)),
        decreases es.len() - i,
    {
        proof {
            assert(entry_pairs(es@.take(i + 1)) =~= entry_pairs(es@.take(i as int)).push((es[i as int].id, es[i as int].icon@)));
            assert(int_view(r@.push((es[i as int].id, es[i as int].icon))) =~= int_view(r@).push((es[i as int].id, es[i as int].icon@)));
        }
        r.push((es[i].id, es[i].icon.clone()));
        i += 1;
    }
    assert(es@.take(es.len() as int) =~= es@);
}

fn push_slot_pairs(r: &mut Vec<(i32, String)>, ss: &Vec<RuneSlot>)
    ensures
        int_view(final(r)@) == int_view(old(r)@) + slot_pairs(ss@),
{
    let mut i: usize = 0;
    let ghost start = int_view(r@);
    assert(slot_pairs(ss@.take(0)) =~= Seq::<(i32, Seq<char>)>::empty());
    assert(start + Seq::<(i32, Seq<char>)>::empty() =~= start);
    while i < ss.len()
        invariant
            i <= ss.len(),
            int_view(r@) == start + slot_pairs(ss@.take(i as int)),
        decreases ss.len() - i,
    {
        assert(ss@.take(i + 1).drop_last() =~= ss@.take(i as int));
        push_entry_pairs(r, &ss[i].runes);
        i += 1;
        assert(start + slot_pairs(ss@.take(i as int)) =~= start + slot_pairs(ss@.take(i - 1)) + entry_pairs(ss[i - 1].runes@));
    }
    assert(ss@.take(ss.len() as int) =~= ss@);
}

/// Rune pairs and style pairs of `runesReforged.json` styles, in file order.
pub fn index_runes(styles: &Vec<RuneStyle>) -> (r: (Vec<(i32, String)>, Vec<(i32, String)>))
    ensures
        int_view(r.0@) == rune_pairs(styles@),
        int_view(r.1@) == style_pairs(styles@),
{
    let mut runes: Vec<(i32, String)> = Vec::new();
    let mut style_icons: Vec<(i32, String)> = Vec::new();
    let mut i: usize = 0;
    assert(rune_pairs(styles@.take(0)) =~= Seq::<(i32, Seq<char>)>::empty());
    assert(int_view(runes@) =~= Seq::<(i32, Seq<char>)>::empty());
    assert(int_view(style_icons@) =~= style_pairs(styles@.take(0)));
    while i < styles.len()
        invariant
            i <= styles.len(),
            int_view(runes@) == rune_pairs(styles@.take(i as int)),
            int_view(style_icons@) == style_pairs(styles@.take(i as int)),
        decreases styles.len() - i,
    {
        assert(styles@.take(i + 1).drop_last() =~= styles@.take(i as int));
        proof {
            assert(int_view(style_icons@.push((styles[i as int].id, styles[i as int].icon))) =~= int_view(style_icons@).push((styles[i as int].id, styles[i as int].icon@)));
            assert(style_pairs(styles@.take(i + 1)) =~= style_pairs(styles@.take(i as int)).push((styles[i as int].id, styles[i as int].icon@)));
        }
        style_icons.push((styles[i].id, styles[i].icon.clone()));
        push_slot_pairs(&mut runes, &styles[i].slots);
        i += 1;
    }
    assert(styles@.take(styles.len() as int) =~= styles@);
    (runes, style_icons)
}

impl DdragonData {
    /// Index `summoner.json`, `runesReforged.json` and `champion.json` (as
    /// fetched; an unavailable file is passed empty) for CDN `version`.
    pub fn index(
        version: String,
        spells: &Vec<SummonerSpell>,
        styles: &Vec<RuneStyle>,
        champions: &Vec<ChampionEntry>,
    ) -> (r: DdragonData)
        ensures
            r.version_view() == version@,
            r.spells_map() == assoc_map(spell_pairs(spells@)),
            r.runes_map() == assoc_map(rune_pairs(styles@)),
            r.styles_map() == assoc_map(style_pairs(styles@)),
            r.champions_map() == assoc_map(champion_pairs(champions@)),
    {
        let s = index_spells(spells);
        let (ru, st) = index_runes(styles);
        let c = index_champions(champions);
        DdragonData::from_pairs(version, s, ru, st, c)
    }
}

} // verus!

//! The images a card references, and their replacement by inlined data URIs.
use vstd::prelude::*;

use super::{Objective, ScorecardVm};
use crate::table::{assoc_map, keys_unique, text_get, text_insert, text_view};

verus! {

/// URL -> inlined data URI, for the images fetched before rendering.
#[derive(Debug)]
pub struct AssetMap {
    entries: Vec<(String, String)>,
}

impl AssetMap {
    #[verifier::type_invariant]
    spec fn keys_distinct(self) -> bool {
        keys_unique(text_view(self.entries@))
    }
}

impl View for AssetMap {
    type V = Map<Seq<char>, Seq<char>>;

    closed spec fn view(&self) -> Map<Seq<char>, Seq<char>> {
        assoc_map(text_view(self.entries@))
    }
}

impl AssetMap {
    /// An empty map.
    pub fn new() -> (r: AssetMap)
        ensures
            r@ == Map::<Seq<char>, Seq<char>>::empty(),
    {
        let r = AssetMap { entries: Vec::new() };
        assert(text_view(r.entries@) =~= Seq::<(Seq<char>, Seq<char>)>::empty());
        r
    }

    /// Whether `url` has a data URI.
    pub fn contains_key(&self, url: &str) -> (r: bool)
        ensures
            r == self@.contains_key(url@),
    {
        self.get(url).is_some()
    }

    /// The data URI of `url`, if any.
    pub fn get(&self, url: &str) -> (r: Option<&String>)
        ensures
            match r {
                Some(v) => self@.contains_key(url@) && self@[url@] == v@,
                None => !self@.contains_key(url@),
            },
    {
        proof {
            use_type_invariant(self);
        }
        text_get(&self.entries, url)
    }

    /// Sets the data URI of `url`.
    pub fn insert(&mut self, url: String, data_uri: String)
        ensures
            final(self)@ == old(self)@.insert(url@, data_uri@),
    {
        proof {
            use_type_invariant(&*self);
        }
        let mut entries: Vec<(String, String)> = Vec::new();
        assert(text_view(entries@) =~= Seq::<(Seq<char>, Seq<char>)>::empty());
        std::mem::swap(&mut entries, &mut self.entries);
        text_insert(&mut entries, url, data_uri);
        self.entries = entries;
    }
}

/// What a URL becomes: its data URI when the map has one, else itself.
pub open spec fn swap_asset(m: Map<Seq<char>, Seq<char>>, url: Seq<char>) -> Seq<char> {
    if m.contains_key(url) {
        m[url]
    } else {
        url
    }
}

/// The URL of an optional image, as a list of zero or one.
pub open spec fn opt_urls(o: Option<String>) -> Seq<Seq<char>> {
    match o {
        Some(s) => seq![s@],
        None => Seq::empty(),
    }
}

/// Strings read by value.
pub open spec fn str_views(v: Seq<String>) -> Seq<Seq<char>> {
    v.map_values(|s: String| s@)
}

/// The URLs of the filled item slots, in slot order.
pub open spec fn slot_urls(items: Seq<Option<String>>) -> Seq<Seq<char>>
    decreases items.len(),
{
    if items.len() == 0 {
        Seq::empty()
    } else {
        slot_urls(items.drop_last()) + opt_urls(items.last())
    }
}

/// The icon URLs of objectives, in order.
pub open spec fn objective_urls(obs: Seq<Objective>) -> Seq<Seq<char>> {
    obs.map_values(|o: Objective| o.icon_src@)
}

/// Every image URL a card references, in card order: splash, role glyph,
/// summoner spells, keystone, secondary tree, items, trinket, rank crest,
/// matchup opponent icon, objective icons.
pub open spec fn card_urls(vm: ScorecardVm) -> Seq<Seq<char>> {
    let l = vm.loadout;
    seq![vm.champion_splash_src@] + opt_urls(vm.role_icon_src) + str_views(l.spell_srcs@)
        + opt_urls(l.keystone_src) + opt_urls(l.secondary_src) + slot_urls(l.items@) + opt_urls(
        l.trinket_src,
    ) + match vm.rank {
        Some(r) => opt_urls(r.emblem_src),
        None => Seq::empty(),
    } + match vm.matchup {
        Some(m) => seq![m.opp_icon_src@],
        None => Seq::empty(),
    } + match vm.team {
        Some(t) => objective_urls(t.objectives@),
        None => Seq::empty(),
    }
}

/// `b` is the optional image `a` after the swap.
pub open spec fn opt_swapped(m: Map<Seq<char>, Seq<char>>, a: Option<String>, b: Option<String>) -> bool {
    match a {
        Some(x) => b matches Some(y) && y@ == swap_asset(m, x@),
        None => b is None,
    }
}

/// `after` is `before` with every image URL swapped through `m`, and
/// nothing else changed.
pub open spec fn assets_applied(before: ScorecardVm, after: ScorecardVm, m: Map<Seq<char>, Seq<char>>) -> bool {
    let (l0, l1) = (before.loadout, after.loadout);
    &&& after == ScorecardVm {
        champion_splash_src: after.champion_splash_src,
        role_icon_src: after.role_icon_src,
        loadout: after.loadout,
        rank: after.rank,
        matchup: after.matchup,
        team: after.team,
        ..before
    }
    &&& after.champion_splash_src@ == swap_asset(m, before.champion_splash_src@)
    &&& opt_swapped(m, before.role_icon_src, after.role_icon_src)
    &&& l1.spell_srcs@.len() == l0.spell_srcs@.len()
    &&& forall|i: int|
        0 <= i < l0.spell_srcs@.len() ==> #[trigger] l1.spell_srcs@[i]@ == swap_asset(
            m,
            l0.spell_srcs@[i]@,
        )
    &&& opt_swapped(m, l0.keystone_src, l1.keystone_src)
    &&& opt_swapped(m, l0.secondary_src, l1.secondary_src)
    &&& l1.items@.len() == l0.items@.len()
    &&& forall|i: int|
        0 <= i < l0.items@.len() ==> opt_swapped(m, l0.items@[i], #[trigger] l1.items@[i])
    &&& opt_swapped(m, l0.trinket_src, l1.trinket_src)
    &&& match (before.rank, after.rank) {
        (Some(a), Some(b)) => b == super::RankView { emblem_src: b.emblem_src, ..a }
            && opt_swapped(m, a.emblem_src, b.emblem_src),
        (None, None) => true,
        _ => false,
    }
    &&& match (before.matchup, after.matchup) {
        (Some(a), Some(b)) => b == super::MatchupView { opp_icon_src: b.opp_icon_src, ..a }
            && b.opp_icon_src@ == swap_asset(m, a.opp_icon_src@),
        (None, None) => true,
        _ => false,
    }
    &&& match (before.team, after.team) {
        (Some(a), Some(b)) => b.kills == a.kills && b.opp_kills == a.opp_kills
            && b.objectives@.len() == a.objectives@.len() && forall|i: int|
            0 <= i < a.objectives@.len() ==> {
                let (x, y) = (a.objectives@[i], #[trigger] b.objectives@[i]);
                y == Objective { icon_src: y.icon_src, ..x } && y.icon_src@ == swap_asset(
                    m,
                    x.icon_src@,
                )
            },
        (None, None) => true,
        _ => false,
    }
}

fn push_opt_url(urls: &mut Vec<String>, o: &Option<String>)
    ensures
        str_views(final(urls)@) == str_views(old(urls)@) + opt_urls(*o),
{
    let ghost before = str_views(urls@);
    if let Some(s) = o {
        urls.push(s.clone());
        assert(str_views(urls@) =~= before + opt_urls(*o));
    } else {
        assert(str_views(urls@) =~= before + opt_urls(*o));
    }
}

fn push_all_urls(urls: &mut Vec<String>, v: &Vec<String>)
    ensures
        str_views(final(urls)@) == str_views(old(urls)@) + str_views(v@),
{
    let ghost before = str_views(urls@);
    let mut i: usize = 0;
    assert(before + str_views(v@.take(0)) =~= before);
    while i < v.len()
        invariant
            i <= v.len(),
            str_views(urls@) == before + str_views(v@.take(i as int)),
        decreases v.len() - i,
    {
        let ghost mid = urls@;
        urls.push(v[i].clone());
        assert(str_views(urls@) =~= str_views(mid).push(v@[i as int]@));
        assert(str_views(v@.take(i + 1)) =~= str_views(v@.take(i as int)).push(v@[i as int]@));
        assert(str_views(urls@) =~= before + str_views(v@.take(i + 1)));
        i += 1;
    }
    assert(v@.take(v.len() as int) =~= v@);
}

fn push_slot_urls(urls: &mut Vec<String>, items: &Vec<Option<String>>)
    ensures
        str_views(final(urls)@) == str_views(old(urls)@) + slot_urls(items@),
{
    let ghost before = str_views(urls@);
    let mut i: usize = 0;
    assert(before + slot_urls(items@.take(0)) =~= before);
    while i < items.len()
        invariant
            i <= items.len(),
            str_views(urls@) == before + slot_urls(items@.take(i as int)),
        decreases items.len() - i,
    {
        let ghost mid = str_views(urls@);
        push_opt_url(urls, &items[i]);
        assert(items@.take(i + 1).drop_last() =~= items@.take(i as int));
        assert(str_views(urls@) =~= before + slot_urls(items@.take(i + 1)));
        i += 1;
    }
    assert(items@.take(items.len() as int) =~= items@);
}

fn push_objective_urls(urls: &mut Vec<String>, obs: &Vec<Objective>)
    ensures
        str_views(final(urls)@) == str_views(old(urls)@) + objective_urls(obs@),
{
    let ghost before = str_views(urls@);
    let mut i: usize = 0;
    assert(before + objective_urls(obs@.take(0)) =~= before);
    while i < obs.len()
        invariant
            i <= obs.len(),
            str_views(urls@) == before + objective_urls(obs@.take(i as int)),
        decreases obs.len() - i,
    {
        let ghost mid = urls@;
        urls.push(obs[i].icon_src.clone());
        assert(str_views(urls@) =~= str_views(mid).push(obs@[i as int].icon_src@));
        assert(objective_urls(obs@.take(i + 1)) =~= objective_urls(obs@.take(i as int)).push(
            obs@[i as int].icon_src@,
        ));
        assert(str_views(urls@) =~= before + objective_urls(obs@.take(i + 1)));
        i += 1;
    }
    assert(obs@.take(obs.len() as int) =~= obs@);
}

fn swapped(map: &AssetMap, s: String) -> (r: String)
    ensures
        r@ == swap_asset(map@, s@),
{
    match map.get(s.as_str()) {
        Some(u) => u.clone(),
        None => s,
    }
}

/// A copy of an optional string.
pub fn clone_opt(o: &Option<String>) -> (r: Option<String>)
    ensures
        r == *o,
{
    match o {
        Some(s) => Some(s.clone()),
        None => None,
    }
}

fn swapped_opt(map: &AssetMap, o: Option<String>) -> (r: Option<String>)
    ensures
        opt_swapped(map@, o, r),
{
    match o {
        Some(s) => Some(swapped(map, s)),
        None => None,
    }
}

impl ScorecardVm {
    /// Every external image URL the card references (see [`card_urls`]), to
    /// fetch and inline before rendering.
    pub fn image_urls(&self) -> (r: Vec<String>)
        ensures
            str_views(r@) == card_urls(*self),
    {
        let l = &self.loadout;
        let mut urls: Vec<String> = Vec::new();
        urls.push(self.champion_splash_src.clone());
        assert(str_views(urls@) =~= seq![self.champion_splash_src@]);
        push_opt_url(&mut urls, &self.role_icon_src);
        push_all_urls(&mut urls, &l.spell_srcs);
        push_opt_url(&mut urls, &l.keystone_src);
        push_opt_url(&mut urls, &l.secondary_src);
        push_slot_urls(&mut urls, &l.items);
        push_opt_url(&mut urls, &l.trinket_src);
        match &self.rank {
            Some(r) => push_opt_url(&mut urls, &r.emblem_src),
            None => {
                assert(str_views(urls@) =~= str_views(urls@) + Seq::<Seq<char>>::empty());
            },
        }
        match &self.matchup {
            Some(m) => {
                let ghost before = str_views(urls@);
                urls.push(m.opp_icon_src.clone());
                assert(str_views(urls@) =~= before + seq![m.opp_icon_src@]);
            },
            None => {
                assert(str_views(urls@) =~= str_views(urls@) + Seq::<Seq<char>>::empty());
            },
        }
        match &self.team {
            Some(t) => push_objective_urls(&mut urls, &t.objectives),
            None => {
                assert(str_views(urls@) =~= str_views(urls@) + Seq::<Seq<char>>::empty());
            },
        }
        urls
    }

    /// Replaces each image URL that has a data URI in `map` by that URI; the
    /// others keep their URL, which the renderer can still fetch itself.
    pub fn apply_asset_map(&mut self, map: &AssetMap)
        ensures
            assets_applied(*old(self), *final(self), map@),
    {
        let mut splash = String::new();
        std::mem::swap(&mut splash, &mut self.champion_splash_src);
        self.champion_splash_src = swapped(map, splash);
        let role = self.role_icon_src.take();
        self.role_icon_src = swapped_opt(map, role);

        let mut spells: Vec<String> = Vec::new();
        std::mem::swap(&mut spells, &mut self.loadout.spell_srcs);
        let mut new_spells: Vec<String> = Vec::new();
        let mut i: usize = 0;
        while i < spells.len()
            invariant
                i <= spells.len(),
                spells@ == old(self).loadout.spell_srcs@,
                new_spells@.len() == i,
                forall|j: int|
                    0 <= j < i ==> #[trigger] new_spells@[j]@ == swap_asset(map@, spells@[j]@),
            decreases spells.len() - i,
        {
            new_spells.push(swapped(map, spells[i].clone()));
            i += 1;
        }
        self.loadout.spell_srcs = new_spells;

        let keystone = self.loadout.keystone_src.take();
        self.loadout.keystone_src = swapped_opt(map, keystone);
        let secondary = self.loadout.secondary_src.take();
        self.loadout.secondary_src = swapped_opt(map, secondary);

        let mut items: Vec<Option<String>> = Vec::new();
        std::mem::swap(&mut items, &mut self.loadout.items);
        let mut new_items: Vec<Option<String>> = Vec::new();
        let mut i: usize = 0;
        while i < items.len()
            invariant
                i <= items.len(),
                items@ == old(self).loadout.items@,
                new_items@.len() == i,
                forall|j: int|
                    0 <= j < i ==> opt_swapped(map@, items@[j], #[trigger] new_items@[j]),
            decreases items.len() - i,
        {
            new_items.push(swapped_opt(map, clone_opt(&items[i])));
            i += 1;
        }
        self.loadout.items = new_items;

        let trinket = self.loadout.trinket_src.take();
        self.loadout.trinket_src = swapped_opt(map, trinket);

        match self.rank.take() {
            Some(mut r) => {
                let emblem = r.emblem_src.take();
                r.emblem_src = swapped_opt(map, emblem);
                self.rank = Some(r);
            },
            None => {},
        }
        match self.matchup.take() {
            Some(mut m) => {
                let mut icon = String::new();
                std::mem::swap(&mut icon, &mut m.opp_icon_src);
                m.opp_icon_src = swapped(map, icon);
                self.matchup = Some(m);
            },
            None => {},
        }
        match self.team.take() {
            Some(mut t) => {
                let mut obs: Vec<Objective> = Vec::new();
                std::mem::swap(&mut obs, &mut t.objectives);
                let ghost before_obs = obs@;
                let mut new_obs: Vec<Objective> = Vec::new();
                let mut i: usize = 0;
                while i < obs.len()
                    invariant
                        i <= obs.len(),
                        obs@ == before_obs,
                        new_obs@.len() == i,
                        forall|j: int|
                            0 <= j < i ==> {
                                let (x, y) = (obs@[j], #[trigger] new_obs@[j]);
                                y == Objective { icon_src: y.icon_src, ..x } && y.icon_src@
                                    == swap_asset(map@, x.icon_src@)
                            },
                    decreases obs.len() - i,
                {
                    let o = &obs[i];
                    let icon = swapped(map, o.icon_src.clone());
                    new_obs.push(Objective { icon_src: icon, count: o.count, label: o.label.clone() });
                    i += 1;
                }
                t.objectives = new_obs;
                self.team = Some(t);
            },
            None => {},
        }
    }
}

proof fn lemma_slot_urls_swapped(
    m: Map<Seq<char>, Seq<char>>,
    a: Seq<Option<String>>,
    b: Seq<Option<String>>,
)
    requires
        a.len() == b.len(),
        forall|i: int| 0 <= i < a.len() ==> opt_swapped(m, a[i], #[trigger] b[i]),
    ensures
        slot_urls(b) == slot_urls(a).map_values(|u: Seq<char>| swap_asset(m, u)),
    decreases a.len(),
{
    if a.len() > 0 {
        let (a0, b0) = (a.drop_last(), b.drop_last());
        assert forall|i: int| 0 <= i < a0.len() implies opt_swapped(m, a0[i], #[trigger] b0[i]) by {
            assert(a0[i] == a[i] && b0[i] == b[i]);
        }
        lemma_slot_urls_swapped(m, a0, b0);
        assert(opt_swapped(m, a[a.len() - 1], b[b.len() - 1]));
        assert(slot_urls(b) =~= slot_urls(a).map_values(|u: Seq<char>| swap_asset(m, u)));
    }
}

proof fn lemma_map_add(a: Seq<Seq<char>>, b: Seq<Seq<char>>, m: Map<Seq<char>, Seq<char>>)
    ensures
        (a + b).map_values(|u: Seq<char>| swap_asset(m, u)) == a.map_values(
            |u: Seq<char>| swap_asset(m, u),
        ) + b.map_values(|u: Seq<char>| swap_asset(m, u)),
{
    assert((a + b).map_values(|u: Seq<char>| swap_asset(m, u)) =~= a.map_values(
        |u: Seq<char>| swap_asset(m, u),
    ) + b.map_values(|u: Seq<char>| swap_asset(m, u)));
}

/// The URL pieces of a card, in [`card_urls`] order.
spec fn url_pieces(vm: ScorecardVm) -> Seq<Seq<Seq<char>>> {
    let l = vm.loadout;
    seq![
        seq![vm.champion_splash_src@],
        opt_urls(vm.role_icon_src),
        str_views(l.spell_srcs@),
        opt_urls(l.keystone_src),
        opt_urls(l.secondary_src),
        slot_urls(l.items@),
        opt_urls(l.trinket_src),
        match vm.rank {
            Some(r) => opt_urls(r.emblem_src),
            None => Seq::empty(),
        },
        match vm.matchup {
            Some(m) => seq![m.opp_icon_src@],
            None => Seq::empty(),
        },
        match vm.team {
            Some(t) => objective_urls(t.objectives@),
            None => Seq::empty(),
        },
    ]
}

/// Concatenation of the first `n` pieces.
spec fn joined(p: Seq<Seq<Seq<char>>>, n: nat) -> Seq<Seq<char>>
    decreases n,
{
    if n == 0 {
        Seq::empty()
    } else {
        joined(p, (n - 1) as nat) + p[n - 1]
    }
}

proof fn lemma_joined_swapped(
    p: Seq<Seq<Seq<char>>>,
    q: Seq<Seq<Seq<char>>>,
    m: Map<Seq<char>, Seq<char>>,
    n: nat,
)
    requires
        n <= p.len(),
        p.len() == q.len(),
        forall|i: int|
            0 <= i < p.len() ==> #[trigger] q[i] == p[i].map_values(
                |u: Seq<char>| swap_asset(m, u),
            ),
    ensures
        joined(q, n) == joined(p, n).map_values(|u: Seq<char>| swap_asset(m, u)),
    decreases n,
{
    if n == 0 {
        assert(joined(p, 0).map_values(|u: Seq<char>| swap_asset(m, u)) =~= Seq::empty());
    } else {
        lemma_joined_swapped(p, q, m, (n - 1) as nat);
        lemma_map_add(joined(p, (n - 1) as nat), p[n - 1], m);
        assert(q[n - 1] == p[n - 1].map_values(|u: Seq<char>| swap_asset(m, u)));
    }
}

proof fn lemma_card_urls_joined(vm: ScorecardVm)
    ensures
        card_urls(vm) == joined(url_pieces(vm), 10),
{
    reveal_with_fuel(joined, 11);
    assert(joined(url_pieces(vm), 1) =~= url_pieces(vm)[0]);
}

/// Inlining swaps URLs in place: after [`ScorecardVm::apply_asset_map`], the
/// card references exactly the images it referenced before, each URL that
/// has a data URI replaced by it, in the same order.
pub proof fn lemma_asset_map_rewrites_urls(
    before: ScorecardVm,
    after: ScorecardVm,
    m: Map<Seq<char>, Seq<char>>,
)
    requires
        assets_applied(before, after, m),
    ensures
        card_urls(after) == card_urls(before).map_values(|u: Seq<char>| swap_asset(m, u)),
{
    let f = |u: Seq<char>| swap_asset(m, u);
    let (l0, l1) = (before.loadout, after.loadout);
    let (p, q) = (url_pieces(before), url_pieces(after));
    lemma_slot_urls_swapped(m, l0.items@, l1.items@);
    assert(q[0] =~= p[0].map_values(f));
    assert(q[1] =~= p[1].map_values(f));
    assert(q[2] =~= p[2].map_values(f));
    assert(q[3] =~= p[3].map_values(f));
    assert(q[4] =~= p[4].map_values(f));
    assert(q[5] == p[5].map_values(f));
    assert(q[6] =~= p[6].map_values(f));
    assert(q[7] =~= p[7].map_values(f));
    assert(q[8] =~= p[8].map_values(f));
    assert(q[9] =~= p[9].map_values(f));
    assert forall|i: int| 0 <= i < p.len() implies #[trigger] q[i] == p[i].map_values(f) by {}
    lemma_joined_swapped(p, q, m, 10);
    lemma_card_urls_joined(before);
    lemma_card_urls_joined(after);
}

} // verus!

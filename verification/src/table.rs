//! Small keyed tables: association lists whose keys are kept distinct, read
//! as the map a sequence of insertions builds (a later pair overrides an
//! earlier one with the same key).
use vstd::prelude::*;

use crate::text::chars_of;

verus! {

/// The map built by inserting the pairs of `s` in order.
pub open spec fn assoc_map<K, V>(s: Seq<(K, V)>) -> Map<K, V>
    decreases s.len(),
{
    if s.len() == 0 {
        Map::empty()
    } else {
        assoc_map(s.drop_last()).insert(s.last().0, s.last().1)
    }
}

/// No key occurs twice.
pub open spec fn keys_unique<K, V>(s: Seq<(K, V)>) -> bool {
    forall|i: int, j: int| 0 <= i < j < s.len() ==> #[trigger] s[i].0 != #[trigger] s[j].0
}

/// A table of integer keys read by value.
pub open spec fn int_view(s: Seq<(i32, String)>) -> Seq<(i32, Seq<char>)> {
    s.map_values(|p: (i32, String)| (p.0, p.1@))
}

/// A table of string keys and string values read by value.
pub open spec fn text_view(s: Seq<(String, String)>) -> Seq<(Seq<char>, Seq<char>)> {
    s.map_values(|p: (String, String)| (p.0@, p.1@))
}

/// A table of string keys read by value.
pub open spec fn name_view(s: Seq<(String, i64)>) -> Seq<(Seq<char>, i64)> {
    s.map_values(|p: (String, i64)| (p.0@, p.1))
}

/// With distinct keys, each pair is what the map holds for its key.
pub proof fn lemma_assoc_map_index<K, V>(s: Seq<(K, V)>, i: int)
    requires
        keys_unique(s),
        0 <= i < s.len(),
    ensures
        assoc_map(s).contains_key(s[i].0),
        assoc_map(s)[s[i].0] == s[i].1,
    decreases s.len(),
{
    if i < s.len() - 1 {
        lemma_assoc_map_index(s.drop_last(), i);
        assert(s.drop_last()[i] == s[i]);
        assert(s[i].0 != s[s.len() - 1].0);
    }
}

/// A key that no pair has is absent from the map.
pub proof fn lemma_assoc_map_absent<K, V>(s: Seq<(K, V)>, k: K)
    requires
        forall|i: int| 0 <= i < s.len() ==> #[trigger] s[i].0 != k,
    ensures
        !assoc_map(s).contains_key(k),
    decreases s.len(),
{
    if s.len() > 0 {
        assert forall|i: int| 0 <= i < s.drop_last().len() implies #[trigger] s.drop_last()[i].0
            != k by {
            assert(s.drop_last()[i] == s[i]);
        }
        lemma_assoc_map_absent(s.drop_last(), k);
        assert(s[s.len() - 1].0 != k);
    }
}

/// Every key of the map is the key of some pair.
pub proof fn lemma_assoc_map_dom<K, V>(s: Seq<(K, V)>, k: K)
    requires
        assoc_map(s).contains_key(k),
    ensures
        exists|i: int| 0 <= i < s.len() && #[trigger] s[i].0 == k,
    decreases s.len(),
{
    if s.len() > 0 {
        if s.last().0 == k {
            assert(s[s.len() - 1].0 == k);
        } else {
            lemma_assoc_map_dom(s.drop_last(), k);
            let i = choose|i: int| 0 <= i < s.drop_last().len() && #[trigger] s.drop_last()[i].0 == k;
            assert(s[i] == s.drop_last()[i]);
        }
    }
}

/// Overwriting the pair of an existing key is inserting it.
proof fn lemma_assoc_map_update<K, V>(s: Seq<(K, V)>, i: int, v: V)
    requires
        keys_unique(s),
        0 <= i < s.len(),
    ensures
        assoc_map(s.update(i, (s[i].0, v))) == assoc_map(s).insert(s[i].0, v),
        keys_unique(s.update(i, (s[i].0, v))),
    decreases s.len(),
{
    let t = s.update(i, (s[i].0, v));
    let k = s[i].0;
    if i == s.len() - 1 {
        assert(t.drop_last() =~= s.drop_last());
        assert(assoc_map(t) == assoc_map(s.drop_last()).insert(k, v));
        assert(assoc_map(s).insert(k, v) =~= assoc_map(s.drop_last()).insert(k, v));
    } else {
        lemma_assoc_map_update(s.drop_last(), i, v);
        assert(t.drop_last() =~= s.drop_last().update(i, (k, v)));
        assert(s.last().0 != k);
        assert(assoc_map(t) =~= assoc_map(s).insert(k, v));
    }
}

/// Sets `k` to `v` in a table with distinct keys: overwrites its pair, or
/// appends one.
pub fn table_insert(t: &mut Vec<(i32, String)>, k: i32, v: String)
    requires
        keys_unique(old(t)@),
    ensures
        keys_unique(final(t)@),
        assoc_map(int_view(final(t)@)) == assoc_map(int_view(old(t)@)).insert(k, v@),
{
    let mut i: usize = 0;
    while i < t.len()
        invariant
            i <= t.len(),
            t@ == old(t)@,
            keys_unique(t@),
            forall|j: int| 0 <= j < i ==> #[trigger] t@[j].0 != k,
        decreases t.len() - i,
    {
        if t[i].0 == k {
            proof {
                let s = int_view(t@);
                lemma_view_unique(t@);
                lemma_assoc_map_update(s, i as int, v@);
                assert(int_view(t@.update(i as int, (k, v))) =~= s.update(i as int, (k, v@)));
                lemma_view_unique(t@.update(i as int, (k, v)));
            }
            t.set(i, (k, v));
            return ;
        }
        i += 1;
    }
    proof {
        assert(int_view(t@.push((k, v))) =~= int_view(t@).push((k, v@)));
        assert(int_view(t@.push((k, v))).drop_last() =~= int_view(t@));
    }
    t.push((k, v));
}

proof fn lemma_view_unique(t: Seq<(i32, String)>)
    ensures
        keys_unique(t) <==> keys_unique(int_view(t)),
{
    assert forall|i: int, j: int| 0 <= i < j < t.len() implies (t[i].0 != t[j].0 <==> int_view(t)[i].0 != int_view(t)[j].0) by {}
    if keys_unique(int_view(t)) {
        assert forall|i: int, j: int| 0 <= i < j < t.len() implies #[trigger] t[i].0 != #[trigger] t[j].0 by {
            assert(int_view(t)[i].0 != int_view(t)[j].0);
        }
    }
    if keys_unique(t) {
        assert forall|i: int, j: int| 0 <= i < j < t.len() implies #[trigger] int_view(t)[i].0 != #[trigger] int_view(t)[j].0 by {
            assert(t[i].0 != t[j].0);
        }
    }
}

/// Value stored for `k`, if any.
pub fn table_get(t: &Vec<(i32, String)>, k: i32) -> (r: Option<&String>)
    requires
        keys_unique(t@),
    ensures
        match r {
            Some(v) => assoc_map(int_view(t@)).contains_key(k) && assoc_map(int_view(t@))[k]
                == v@,
            None => !assoc_map(int_view(t@)).contains_key(k),
        },
{
    let mut i: usize = 0;
    while i < t.len()
        invariant
            i <= t.len(),
            keys_unique(t@),
            forall|j: int| 0 <= j < i ==> #[trigger] t@[j].0 != k,
        decreases t.len() - i,
    {
        if t[i].0 == k {
            proof {
                lemma_view_unique(t@);
                lemma_assoc_map_index(int_view(t@), i as int);
            }
            return Some(&t[i].1);
        }
        i += 1;
    }
    proof {
        lemma_assoc_map_absent(int_view(t@), k);
    }
    None
}

/// Sets `k` to `v` in a string-keyed table with distinct keys.
pub fn name_insert(t: &mut Vec<(String, i64)>, k: String, v: i64)
    requires
        keys_unique(name_view(old(t)@)),
    ensures
        keys_unique(name_view(final(t)@)),
        assoc_map(name_view(final(t)@)) == assoc_map(name_view(old(t)@)).insert(k@, v),
{
    let mut i: usize = 0;
    while i < t.len()
        invariant
            i <= t.len(),
            t@ == old(t)@,
            keys_unique(name_view(t@)),
            forall|j: int| 0 <= j < i ==> #[trigger] name_view(t@)[j].0 != k@,
        decreases t.len() - i,
    {
        if crate::text::str_eq(t[i].0.as_str(), k.as_str()) {
            proof {
                let s = name_view(t@);
                lemma_assoc_map_update(s, i as int, v);
                assert(name_view(t@.update(i as int, (k, v))) =~= s.update(i as int, (k@, v)));
            }
            t.set(i, (k, v));
            return ;
        }
        i += 1;
    }
    proof {
        assert(name_view(t@.push((k, v))) =~= name_view(t@).push((k@, v)));
        assert(name_view(t@.push((k, v))).drop_last() =~= name_view(t@));
        assert forall|a: int, b: int| 0 <= a < b < name_view(t@.push((k, v))).len() implies #[trigger] name_view(t@.push((k, v)))[a].0 != #[trigger] name_view(t@.push((k, v)))[b].0 by {
            if b < t@.len() {
                assert(name_view(t@)[a].0 != name_view(t@)[b].0);
            }
        }
    }
    t.push((k, v));
}

/// Value stored for the key `k`, if any.
pub fn name_get(t: &Vec<(String, i64)>, k: &str) -> (r: Option<i64>)
    requires
        keys_unique(name_view(t@)),
    ensures
        match r {
            Some(v) => assoc_map(name_view(t@)).contains_key(k@) && assoc_map(name_view(t@))[k@]
                == v,
            None => !assoc_map(name_view(t@)).contains_key(k@),
        },
{
    let mut i: usize = 0;
    while i < t.len()
        invariant
            i <= t.len(),
            keys_unique(name_view(t@)),
            forall|j: int| 0 <= j < i ==> #[trigger] name_view(t@)[j].0 != k@,
        decreases t.len() - i,
    {
        if crate::text::str_eq(t[i].0.as_str(), k) {
            proof {
                lemma_assoc_map_index(name_view(t@), i as int);
            }
            return Some(t[i].1);
        }
        i += 1;
    }
    proof {
        lemma_assoc_map_absent(name_view(t@), k@);
    }
    None
}

/// `i` is the first index whose key equals `name` up to ASCII case.
pub open spec fn first_ci_at(s: Seq<(Seq<char>, i64)>, name: Seq<char>, i: int) -> bool {
    &&& 0 <= i < s.len()
    &&& crate::text::eq_ignore_ascii_case_spec(s[i].0, name)
    &&& forall|j: int|
        0 <= j < i ==> !crate::text::eq_ignore_ascii_case_spec(#[trigger] s[j].0, name)
}

/// The first key equal to `name` up to ASCII case, if any.
pub open spec fn first_ci_key(s: Seq<(Seq<char>, i64)>, name: Seq<char>) -> Option<Seq<char>> {
    if exists|i: int| first_ci_at(s, name, i) {
        Some(s[choose|i: int| first_ci_at(s, name, i)].0)
    } else {
        None
    }
}

proof fn lemma_first_ci_unique(s: Seq<(Seq<char>, i64)>, name: Seq<char>, i: int, k: int)
    requires
        first_ci_at(s, name, i),
        first_ci_at(s, name, k),
    ensures
        i == k,
{
    if i < k {
        assert(!crate::text::eq_ignore_ascii_case_spec(s[i].0, name));
    } else if k < i {
        assert(!crate::text::eq_ignore_ascii_case_spec(s[k].0, name));
    }
}

/// The first key equal to `name` up to ASCII case, if any.
pub fn name_find_ignore_case(t: &Vec<(String, i64)>, name: &str) -> (r: Option<String>)
    ensures
        match r {
            Some(key) => first_ci_key(name_view(t@), name@) == Some(key@) && exists|i: int|
                0 <= i < t@.len() && #[trigger] name_view(t@)[i].0 == key@
                    && crate::text::eq_ignore_ascii_case_spec(key@, name@),
            None => first_ci_key(name_view(t@), name@) is None && forall|i: int|
                0 <= i < t@.len() ==> !crate::text::eq_ignore_ascii_case_spec(
                    #[trigger] name_view(t@)[i].0,
                    name@,
                ),
        },
{
    let target = chars_of(name);
    let mut i: usize = 0;
    while i < t.len()
        invariant
            i <= t.len(),
            target@ == name@,
            forall|j: int|
                0 <= j < i ==> !crate::text::eq_ignore_ascii_case_spec(
                    #[trigger] name_view(t@)[j].0,
                    name@,
                ),
        decreases t.len() - i,
    {
        let key = chars_of(t[i].0.as_str());
        if crate::text::eq_ignore_ascii_case(&key, &target) {
            proof {
                let nv = name_view(t@);
                assert(nv[i as int].0 == t@[i as int].0@);
                assert(first_ci_at(nv, name@, i as int));
                let c = choose|c: int| first_ci_at(nv, name@, c);
                lemma_first_ci_unique(nv, name@, i as int, c);
            }
            return Some(t[i].0.clone());
        }
        i += 1;
    }
    None
}

/// Sets `k` to `v` in a string table with distinct keys.
pub fn text_insert(t: &mut Vec<(String, String)>, k: String, v: String)
    requires
        keys_unique(text_view(old(t)@)),
    ensures
        keys_unique(text_view(final(t)@)),
        assoc_map(text_view(final(t)@)) == assoc_map(text_view(old(t)@)).insert(k@, v@),
{
    let mut i: usize = 0;
    while i < t.len()
        invariant
            i <= t.len(),
            t@ == old(t)@,
            keys_unique(text_view(t@)),
            forall|j: int| 0 <= j < i ==> #[trigger] text_view(t@)[j].0 != k@,
        decreases t.len() - i,
    {
        if crate::text::str_eq(t[i].0.as_str(), k.as_str()) {
            proof {
                let s = text_view(t@);
                lemma_assoc_map_update(s, i as int, v@);
                assert(text_view(t@.update(i as int, (k, v))) =~= s.update(i as int, (k@, v@)));
            }
            t.set(i, (k, v));
            return ;
        }
        i += 1;
    }
    proof {
        let n = text_view(t@.push((k, v)));
        assert(n =~= text_view(t@).push((k@, v@)));
        assert(n.drop_last() =~= text_view(t@));
        assert forall|a: int, b: int| 0 <= a < b < n.len() implies #[trigger] n[a].0
            != #[trigger] n[b].0 by {
            if b < t@.len() {
                assert(text_view(t@)[a].0 != text_view(t@)[b].0);
            }
        }
    }
    t.push((k, v));
}

/// Value stored for the key `k` of a string table, if any.
pub fn text_get<'a>(t: &'a Vec<(String, String)>, k: &str) -> (r: Option<&'a String>)
    requires
        keys_unique(text_view(t@)),
    ensures
        match r {
            Some(v) => assoc_map(text_view(t@)).contains_key(k@) && assoc_map(text_view(t@))[k@]
                == v@,
            None => !assoc_map(text_view(t@)).contains_key(k@),
        },
{
    let mut i: usize = 0;
    while i < t.len()
        invariant
            i <= t.len(),
            keys_unique(text_view(t@)),
            forall|j: int| 0 <= j < i ==> #[trigger] text_view(t@)[j].0 != k@,
        decreases t.len() - i,
    {
        if crate::text::str_eq(t[i].0.as_str(), k) {
            proof {
                lemma_assoc_map_index(text_view(t@), i as int);
            }
            return Some(&t[i].1);
        }
        i += 1;
    }
    proof {
        lemma_assoc_map_absent(text_view(t@), k@);
    }
    None
}

} // verus!

//! Column list of the player table, as written into queries.
use vstd::prelude::*;

use crate::text::{push_str, string_of};

verus! {

/// Columns of the player table, in row order.
pub open spec fn player_column_names() -> Seq<Seq<char>> {
    seq![
        "id"@,
        "puuid"@,
        "game_name"@,
        "tag_line"@,
        "region"@,
        "last_match_id"@,
        "last_rank_solo_tier"@,
        "last_rank_solo_rank"@,
        "last_rank_solo_lp"@,
        "last_rank_flex_tier"@,
        "last_rank_flex_rank"@,
        "last_rank_flex_lp"@,
    ]
}

/// `names` each preceded by `prefix`, separated by `, `.
pub open spec fn prefixed_list(prefix: Seq<char>, names: Seq<Seq<char>>) -> Seq<char>
    decreases names.len(),
{
    if names.len() == 0 {
        Seq::empty()
    } else if names.len() == 1 {
        prefix + names[0]
    } else {
        prefixed_list(prefix, names.drop_last()) + ", "@ + prefix + names.last()
    }
}

/// Prefix for a table alias: `p.` for `Some("p")`, nothing without alias.
pub open spec fn alias_prefix(alias: Option<Seq<char>>) -> Seq<char> {
    match alias {
        Some(a) => a + "."@,
        None => Seq::empty(),
    }
}

fn column_names() -> (v: Vec<&'static str>)
    ensures
        v@.len() == player_column_names().len(),
        forall|i: int| 0 <= i < v@.len() ==> #[trigger] v@[i]@ == player_column_names()[i],
{
    let v = vec![
        "id",
        "puuid",
        "game_name",
        "tag_line",
        "region",
        "last_match_id",
        "last_rank_solo_tier",
        "last_rank_solo_rank",
        "last_rank_solo_lp",
        "last_rank_flex_tier",
        "last_rank_flex_rank",
        "last_rank_flex_lp",
    ];
    v
}

/// The player columns, optionally qualified by a table alias
/// (`p.id, p.puuid, …`), joined with `, `.
pub fn player_columns(alias: Option<&str>) -> (r: String)
    ensures
        r@ == prefixed_list(
            alias_prefix(
                match alias {
                    Some(a) => Some(a@),
                    None => None,
                },
            ),
            player_column_names(),
        ),
{
    let ghost spec_alias = match alias {
        Some(a) => Some(a@),
        None => None,
    };
    let mut prefix = String::new();
    if let Some(a) = alias {
        push_str(&mut prefix, a);
        push_str(&mut prefix, ".");
    }
    assert(prefix@ == alias_prefix(spec_alias));
    let names = column_names();
    let ghost all = player_column_names();
    let mut r = String::new();
    let mut i: usize = 0;
    while i < names.len()
        invariant
            i <= names.len(),
            names@.len() == all.len(),
            forall|j: int| 0 <= j < names@.len() ==> #[trigger] names@[j]@ == all[j],
            prefix@ == alias_prefix(spec_alias),
            r@ == prefixed_list(prefix@, all.take(i as int)),
        decreases names.len() - i,
    {
        assert(all.take(i + 1).drop_last() == all.take(i as int));
        if i > 0 {
            push_str(&mut r, ", ");
        }
        push_str(&mut r, prefix.as_str());
        push_str(&mut r, names[i]);
        i += 1;
    }
    assert(all.take(names.len() as int) == all);
    r
}

} // verus!

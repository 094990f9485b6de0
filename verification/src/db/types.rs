//! The account record the tracker keeps per player.
use vstd::prelude::*;

use crate::riot::region::Region;
use crate::types::LeaguePoints;

verus! {

/// A tracked account with its last seen match and cached Solo/Duo LP.
#[derive(Debug, Clone)]
pub struct Account {
    pub puuid: String,
    pub game_name: String,
    pub tag_line: String,
    pub region: Region,
    pub last_match_id: String,
    pub cached_lol_solo_duo_lps: Option<LeaguePoints>,
}

} // verus!

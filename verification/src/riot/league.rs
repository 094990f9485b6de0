//! A finished match together with the ranked standing fetched after it and
//! the standing cached before it, from which the LP change is derived.
use vstd::prelude::*;

use crate::riot::types::{LeagueEntryDto, MatchDto};
use crate::types::LeaguePoints;

verus! {

/// A match plus the league standings around it.
#[derive(Debug, Clone)]
pub struct MatchDtoWithLeagueInfo {
    pub match_data: MatchDto,
    pub league_data: Option<LeagueEntryDto>,
    pub cached_league_points: Option<LeaguePoints>,
}

/// LP after minus LP before, in the 16-bit arithmetic the tracker uses.
pub open spec fn raw_lp_diff(new_lp: i32, cached: LeaguePoints) -> int {
    (new_lp as i16) as int - (cached as i16) as int
}

/// The LP change shown for a result: a loss that reads as a gain (or a win
/// that reads as a loss) crossed a division boundary, so 100 LP is moved
/// across it.
pub open spec fn adjusted_lp_diff(new_lp: i32, cached: LeaguePoints, won: bool) -> int {
    let d = raw_lp_diff(new_lp, cached);
    if (d < 0 && won) || (d > 0 && !won) {
        if won {
            d + 100
        } else {
            d - 100
        }
    } else {
        d
    }
}

/// The 16-bit LP arithmetic does not overflow.
pub open spec fn lp_diff_fits(new_lp: i32, cached: LeaguePoints, won: bool) -> bool {
    &&& i16::MIN <= raw_lp_diff(new_lp, cached) <= i16::MAX
    &&& i16::MIN <= adjusted_lp_diff(new_lp, cached, won) <= i16::MAX
}

impl MatchDtoWithLeagueInfo {
    /// Bundle a match with its league standings.
    pub fn new(
        match_data: MatchDto,
        league_data: Option<LeagueEntryDto>,
        cached_league_points: Option<LeaguePoints>,
    ) -> (r: Self)
        ensures
            r.match_data == match_data,
            r.league_data == league_data,
            r.cached_league_points == cached_league_points,
    {
        MatchDtoWithLeagueInfo { match_data, league_data, cached_league_points }
    }

    /// LP gained (positive) or lost (negative) between the cached standing and
    /// the fresh one; `None` when either is missing.
    pub fn calculate_league_points_difference(&self, won: bool) -> (r: Option<i16>)
        requires
            match (self.league_data, self.cached_league_points) {
                (Some(l), Some(c)) => lp_diff_fits(l.league_points, c, won),
                _ => true,
            },
        ensures
            match (self.league_data, self.cached_league_points) {
                (Some(l), Some(c)) => r == Some(
                    adjusted_lp_diff(l.league_points, c, won) as i16,
                ),
                _ => r is None,
            },
    {
        let league_data = match &self.league_data {
            Some(l) => l,
            None => {
                return None;
            },
        };
        let cached = match self.cached_league_points {
            Some(c) => c,
            None => {
                return None;
            },
        };
        let mut diff: i16 = league_data.league_points as i16 - cached as i16;
        if (diff < 0 && won) || (diff > 0 && !won) {
            diff = diff + if won {
                100i16
            } else {
                -100i16
            };
        }
        Some(diff)
    }
}

/// The LP change shown for a result has the sign of the result: a win never
/// shows a loss and a loss never shows a gain, as long as the raw 16-bit
/// difference stays within one division (100 LP) either way. The change then
/// stays within one division too, and differs from the raw difference by a
/// whole division or not at all.
pub proof fn lemma_lp_diff_sign_follows_result(new_lp: i32, cached: LeaguePoints, won: bool)
    requires
        -100 <= raw_lp_diff(new_lp, cached) <= 100,
    ensures
        won ==> 0 <= adjusted_lp_diff(new_lp, cached, won) <= 100,
        !won ==> -100 <= adjusted_lp_diff(new_lp, cached, won) <= 0,
        (adjusted_lp_diff(new_lp, cached, won) - raw_lp_diff(new_lp, cached)) % 100 == 0,
{
}

} // verus!

//! Riot API request URLs, and the errors a failed request turns into.
use vstd::prelude::*;

use crate::error::AppError;
use crate::numfmt::{push_decimal, push_signed, signed_decimal, decimal};
use crate::riot::region::{api_base_url, platform_code, region_code, Platform, Region};
use crate::text::{push_str, string_of};
use vstd::utf8::encode_utf8;

verus! {

/// Percent-encoding of some bytes as `urlencoding` produces it: every byte
/// except ASCII letters, digits and `-`, `_`, `.`, `~` becomes `%XX`
/// (upper-case hex); the others stay as their character.
pub open spec fn url_encoded_bytes(b: Seq<u8>) -> Seq<char>
    decreases b.len(),
{
    if b.len() == 0 {
        Seq::empty()
    } else {
        let c = b.last();
        url_encoded_bytes(b.drop_last()) + if url_safe(c as char) {
            seq![c as char]
        } else {
            seq!['%', hex_upper((c as int) / 16), hex_upper((c as int) % 16)]
        }
    }
}

/// Percent-encoding of a text as `urlencoding::encode` produces it: the
/// encoding of its UTF-8 bytes.
pub open spec fn url_encoded(s: Seq<char>) -> Seq<char> {
    url_encoded_bytes(encode_utf8(s))
}

/// An upper-case hexadecimal digit.
pub open spec fn hex_upper(d: int) -> char {
    if d < 10 {
        ((d + 48) as u32) as char
    } else {
        ((d + 55) as u32) as char
    }
}

/// Characters `urlencoding` leaves as they are.
pub open spec fn url_safe(c: char) -> bool {
    ('0' <= c <= '9') || ('A' <= c <= 'Z') || ('a' <= c <= 'z') || c == '-' || c == '.' || c == '_'
        || c == '~'
}

/// The percent-encoding of an ASCII text (one byte per character).
pub open spec fn ascii_url_encoded(s: Seq<char>) -> Seq<char>
    decreases s.len(),
{
    if s.len() == 0 {
        Seq::empty()
    } else {
        let c = s.last();
        ascii_url_encoded(s.drop_last()) + if url_safe(c) {
            seq![c]
        } else {
            seq!['%', hex_upper((c as int) / 16), hex_upper((c as int) % 16)]
        }
    }
}

/// `urlencoding::encode`: percent-encodes a path segment, byte by byte over
/// its UTF-8 encoding ([`url_encoded`]); for an ASCII text that is the
/// character-wise encoding [`ascii_url_encoded`].
#[verifier::external_body]
fn url_encode(s: &str) -> (r: String)
    ensures
        r@ == url_encoded(s@),
        (forall|i: int| 0 <= i < s@.len() ==> (#[trigger] s@[i] as u32) < 128) ==> r@
            == ascii_url_encoded(s@),
{
    urlencoding::encode(s).into_owned()
}

/// account-v1 lookup of a Riot ID (regional routing).
pub open spec fn account_url_of(region: Region, game_name: Seq<char>, tag_line: Seq<char>) -> Seq<char> {
    api_base_url(region_code(region)) + "/riot/account/v1/accounts/by-riot-id/"@ + url_encoded(
        game_name,
    ) + "/"@ + url_encoded(tag_line)
}

/// URL of the account-v1 lookup of `game_name#tag_line`, both parts
/// percent-encoded.
pub fn account_url(region: Region, game_name: &str, tag_line: &str) -> (r: String)
    ensures
        r@ == account_url_of(region, game_name@, tag_line@),
{
    let mut r = region.base_url();
    push_str(&mut r, "/riot/account/v1/accounts/by-riot-id/");
    let g = url_encode(game_name);
    push_str(&mut r, g.as_str());
    push_str(&mut r, "/");
    let t = url_encode(tag_line);
    push_str(&mut r, t.as_str());
    r
}

/// URL of the latest `count` match ids of a player (regional routing).
pub fn match_ids_url(region: Region, puuid: &str, count: u32) -> (r: String)
    ensures
        r@ == api_base_url(region_code(region)) + "/lol/match/v5/matches/by-puuid/"@ + puuid@
            + "/ids?count="@ + decimal(count as nat),
{
    let mut r = region.base_url();
    push_str(&mut r, "/lol/match/v5/matches/by-puuid/");
    push_str(&mut r, puuid);
    push_str(&mut r, "/ids?count=");
    push_decimal(&mut r, count as u128);
    r
}

/// URL of a match (regional routing).
pub fn match_url(region: Region, match_id: &str) -> (r: String)
    ensures
        r@ == api_base_url(region_code(region)) + "/lol/match/v5/matches/"@ + match_id@,
{
    let mut r = region.base_url();
    push_str(&mut r, "/lol/match/v5/matches/");
    push_str(&mut r, match_id);
    r
}

/// URL of a player's league entries (platform routing).
pub fn league_entries_url(platform: Platform, puuid: &str) -> (r: String)
    ensures
        r@ == api_base_url(platform_code(platform)) + "/lol/league/v4/entries/by-puuid/"@ + puuid@,
{
    let mut r = platform.base_url();
    push_str(&mut r, "/lol/league/v4/entries/by-puuid/");
    push_str(&mut r, puuid);
    r
}

/// URL of a player's mastery of one champion (platform routing).
pub fn mastery_url(platform: Platform, puuid: &str, champion_id: i64) -> (r: String)
    ensures
        r@ == api_base_url(platform_code(platform))
            + "/lol/champion-mastery/v4/champion-masteries/by-puuid/"@ + puuid@ + "/by-champion/"@
            + signed_decimal(champion_id as int),
{
    let mut r = platform.base_url();
    push_str(&mut r, "/lol/champion-mastery/v4/champion-masteries/by-puuid/");
    push_str(&mut r, puuid);
    push_str(&mut r, "/by-champion/");
    push_signed(&mut r, champion_id);
    r
}

/// URL of a player's summoner profile (platform routing).
pub fn summoner_url(platform: Platform, puuid: &str) -> (r: String)
    ensures
        r@ == "https://"@ + platform_code(platform) + ".api.riotgames.com/lol/summoner/v4/summoners/by-puuid/"@
            + puuid@,
{
    let mut r = string_of("https://");
    push_str(&mut r, platform.as_str());
    push_str(&mut r, ".api.riotgames.com/lol/summoner/v4/summoners/by-puuid/");
    push_str(&mut r, puuid);
    r
}

/// The error of a request answered with a non-success `status`.
pub fn api_error(status: u16, message: String) -> (e: AppError)
    ensures
        e == (AppError::RiotApi { status, message }),
{
    AppError::RiotApi { status, message }
}

/// The error of a failed Riot ID lookup: an unknown account (404) is a
/// player that does not exist; any other error stays as it is.
pub fn account_lookup_error(e: AppError, game_name: &str, tag_line: &str) -> (r: AppError)
    ensures
        match e {
            AppError::RiotApi { status, .. } if status == 404 => r matches AppError::PlayerNotFound {
                game_name: g,
                tag_line: t,
            } && g@ == game_name@ && t@ == tag_line@,
            _ => r == e,
        },
{
    match e {
        AppError::RiotApi { status, message } => {
            if status == 404 {
                AppError::PlayerNotFound {
                    game_name: string_of(game_name),
                    tag_line: string_of(tag_line),
                }
            } else {
                AppError::RiotApi { status, message }
            }
        },
        other => other,
    }
}

} // verus!

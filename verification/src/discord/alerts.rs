//! Messages of the alert pipeline: what is handed to the alert sender, and
//! the error raised when an alert is asked for a player outside the match.
use vstd::prelude::*;

use crate::riot::league::MatchDtoWithLeagueInfo;
use crate::text::{push_str, string_of};

verus! {

/// A request to the alert sender.
#[derive(Debug)]
pub enum AlertSenderMessage {
    /// Announce `match_data` for the player `puuid` in every server tracking it.
    DispatchNewAlert { puuid: String, match_data: MatchDtoWithLeagueInfo },
}

/// Why an alert embed could not be built.
#[derive(Debug, Clone, PartialEq, Eq)]
pub enum EmbedCreationError {
    /// The focused player took no part in the match.
    PuuidNotInMatch { puuid: String },
}

/// The text that `{:?}` formatting gives for a string: the string quoted,
/// with its special characters escaped.
pub uninterp spec fn debug_quoted(s: Seq<char>) -> Seq<char>;

/// Printable ASCII other than `"` and `\`: the characters `{:?}` keeps
/// as they are.
pub open spec fn debug_plain(c: char) -> bool {
    0x20 <= (c as u32) <= 0x7e && c != '"' && c != '\\'
}

/// `format!("{:?}", s)` for a `&str`: the result is named `debug_quoted`;
/// a text of plain characters (see [`debug_plain`]) is only put in quotes.
#[verifier::external_body]
fn quote_debug(s: &str) -> (r: String)
    ensures
        r@ == debug_quoted(s@),
        (forall|i: int| 0 <= i < s@.len() ==> debug_plain(#[trigger] s@[i])) ==> r@ == seq!['"'] + s@
            + seq!['"'],
{
    format!("{:?}", s)
}

/// The text of an embed error.
pub open spec fn embed_error_message(e: EmbedCreationError) -> Seq<char> {
    match e {
        EmbedCreationError::PuuidNotInMatch { puuid } => "The specified PUUID focus "@
            + debug_quoted(puuid@) + " isn't part of the match."@,
    }
}

impl EmbedCreationError {
    /// The error's text (`The specified PUUID focus "p1" isn't part of the match.`).
    pub fn message(&self) -> (r: String)
        ensures
            r@ == embed_error_message(*self),
            match self {
                EmbedCreationError::PuuidNotInMatch { puuid } => (forall|i: int|
                    0 <= i < puuid@.len() ==> debug_plain(#[trigger] puuid@[i])) ==> r@
                    == "The specified PUUID focus "@ + seq!['"'] + puuid@ + seq!['"']
                    + " isn't part of the match."@,
            },
    {
        match self {
            EmbedCreationError::PuuidNotInMatch { puuid } => {
                let mut r = string_of("The specified PUUID focus ");
                let q = quote_debug(puuid.as_str());
                push_str(&mut r, q.as_str());
                push_str(&mut r, " isn't part of the match.");
                r
            },
        }
    }
}

} // verus!

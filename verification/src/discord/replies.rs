//! The replies of the slash commands: their texts and embeds, built from
//! plain values so the command handlers only fetch, store and send.
use vstd::prelude::*;

use crate::db::models::Player;
use crate::error::{error_message, AppError};
use crate::numfmt::{push_decimal, decimal};
use crate::poller::{field_is, EmbedField};
use crate::riot::region::{platform_display_name, platform_label, Platform};
use crate::riot::types::AccountDto;
use crate::text::{push_str, string_of, to_uppercase, unicode_uppercase};

use vstd::string::StringSliceAdditionalSpecFns;
use vstd::utf8::{encode_utf8, is_char_boundary};

verus! {

/// An embed reply: title, description, colour and fields.
#[derive(Debug, Clone)]
pub struct EmbedReply {
    pub title: String,
    pub description: String,
    pub color: u32,
    pub fields: Vec<EmbedField>,
}

/// A reply: plain text or an embed.
#[derive(Debug, Clone)]
pub enum Reply {
    Text(String),
    Embed(EmbedReply),
}

/// One line of the tracked-players list: `- **Name#TAG** (EUW1)`.
pub open spec fn list_line(p: Player) -> Seq<char> {
    "- **"@ + p.game_name@ + "#"@ + p.tag_line@ + "** ("@ + unicode_uppercase(p.region@) + ")\n"@
}

/// The lines of the tracked-players list, in order.
pub open spec fn list_lines(ps: Seq<Player>) -> Seq<char>
    decreases ps.len(),
{
    if ps.len() == 0 {
        Seq::empty()
    } else {
        list_lines(ps.drop_last()) + list_line(ps.last())
    }
}

/// What `/list` answers for the players tracked in a server: a hint when
/// there are none, else an embed listing them.
pub fn list_reply(players: &Vec<Player>) -> (r: Reply)
    ensures
        players@.len() == 0 ==> (r matches Reply::Text(t) && t@
            == "No players are being tracked in this server.\nUse `/track` to add players."@),
        players@.len() > 0 ==> (r matches Reply::Embed(e) && e.title@ == "Tracked Players ("@
            + decimal(players@.len()) + ")"@ && e.description@ == list_lines(players@) && e.color
            == 0x0099ff && e.fields@.len() == 0),
{
    if players.len() == 0 {
        return Reply::Text(
            string_of("No players are being tracked in this server.\nUse `/track` to add players."),
        );
    }
    let mut description = String::new();
    let mut i: usize = 0;
    while i < players.len()
        invariant
            i <= players@.len(),
            description@ == list_lines(players@.take(i as int)),
        decreases players.len() - i,
    {
        let p = &players[i];
        assert(players@.take(i + 1).drop_last() =~= players@.take(i as int));
        push_str(&mut description, "- **");
        push_str(&mut description, p.game_name.as_str());
        push_str(&mut description, "#");
        push_str(&mut description, p.tag_line.as_str());
        push_str(&mut description, "** (");
        let region = to_uppercase(p.region.as_str());
        push_str(&mut description, region.as_str());
        push_str(&mut description, ")\n");
        assert(description@ =~= list_lines(players@.take(i + 1)));
        i += 1;
    }
    assert(players@.take(players.len() as int) =~= players@);
    let mut title = string_of("Tracked Players (");
    push_decimal(&mut title, players.len() as u128);
    push_str(&mut title, ")");
    Reply::Embed(EmbedReply { title, description, color: 0x0099ff, fields: Vec::new() })
}

/// The Riot ID to show for a tracked account: the account's own casing when
/// the API returns it, else what the user typed.
pub fn shown_riot_id(account: &AccountDto, game_name: &str, tag_line: &str) -> (r: (String, String))
    ensures
        r.0@ == match account.game_name {
            Some(g) => g@,
            None => game_name@,
        },
        r.1@ == match account.tag_line {
            Some(t) => t@,
            None => tag_line@,
        },
{
    let g = match &account.game_name {
        Some(g) => g.clone(),
        None => string_of(game_name),
    };
    let t = match &account.tag_line {
        Some(t) => t.clone(),
        None => string_of(tag_line),
    };
    (g, t)
}

/// Text of `/track` for a player the server already tracks.
pub fn already_tracked_text(game_name: &str, tag_line: &str) -> (r: String)
    ensures
        r@ == "**"@ + game_name@ + "#"@ + tag_line@ + "** is already being tracked in this server."@,
{
    let mut r = string_of("**");
    push_str(&mut r, game_name);
    push_str(&mut r, "#");
    push_str(&mut r, tag_line);
    push_str(&mut r, "** is already being tracked in this server.");
    r
}

/// Embed of a newly tracked player: its Riot ID and platform, the first
/// eight bytes of its PUUID (which must end on a character boundary) and the
/// platform label.
pub fn tracked_embed(game_name: &str, tag_line: &str, platform: Platform, puuid: &str) -> (e: EmbedReply)
    requires
        is_char_boundary(puuid.spec_bytes(), 8),
    ensures
        e.title@ == "Player Tracked"@,
        e.description@ == "Now tracking **"@ + game_name@ + "#"@ + tag_line@ + "** on **"@
            + platform_display_name(platform) + "**"@,
        e.color == 0x00ff00,
        e.fields@.len() == 2,
        e.fields@[0].name@ == "PUUID"@,
        encode_utf8(e.fields@[0].value@) == puuid.spec_bytes().subrange(0, 8),
        e.fields@[0].inline,
        field_is(e.fields@[1], "Region"@, platform_label(platform), true),
{
    let mut description = string_of("Now tracking **");
    push_str(&mut description, game_name);
    push_str(&mut description, "#");
    push_str(&mut description, tag_line);
    push_str(&mut description, "** on **");
    push_str(&mut description, platform.display_name());
    push_str(&mut description, "**");
    let (head, _) = puuid.split_at(8);
    let mut fields: Vec<EmbedField> = Vec::new();
    fields.push(EmbedField { name: string_of("PUUID"), value: string_of(head), inline: true });
    fields.push(
        EmbedField { name: string_of("Region"), value: platform.to_display_string(), inline: true },
    );
    EmbedReply { title: string_of("Player Tracked"), description, color: 0x00ff00, fields }
}

/// Embed of a player no longer tracked.
pub fn untracked_embed(player: &Player) -> (e: EmbedReply)
    ensures
        e.title@ == "Player Untracked"@,
        e.description@ == "Stopped tracking **"@ + player.game_name@ + "#"@ + player.tag_line@
            + "**"@,
        e.color == 0xff6600,
        e.fields@.len() == 0,
{
    let mut description = string_of("Stopped tracking **");
    push_str(&mut description, player.game_name.as_str());
    push_str(&mut description, "#");
    push_str(&mut description, player.tag_line.as_str());
    push_str(&mut description, "**");
    EmbedReply { title: string_of("Player Untracked"), description, color: 0xff6600, fields: Vec::new() }
}

/// Embed confirming the alert channel, given the channel's mention text.
pub fn channel_embed(mention: &str) -> (e: EmbedReply)
    ensures
        e.title@ == "Configuration Updated"@,
        e.description@ == "Game alerts will now be sent to "@ + mention@,
        e.color == 0x00ff00,
        e.fields@.len() == 0,
{
    let mut description = string_of("Game alerts will now be sent to ");
    push_str(&mut description, mention);
    EmbedReply { title: string_of("Configuration Updated"), description, color: 0x00ff00, fields: Vec::new() }
}

/// Text shown when a command fails.
pub fn command_error_text(e: &AppError) -> (r: String)
    ensures
        r@ == "Error: "@ + error_message(*e),
{
    let mut r = string_of("Error: ");
    let m = e.message();
    push_str(&mut r, m.as_str());
    r
}

} // verus!

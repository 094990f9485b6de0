//! Values shared between the tracker's data sources: routing regions, queue
//! types, tracked accounts and cached leagues.
use vstd::prelude::*;

use crate::text::{
    ascii_upper_text, is_ascii_text, push_str, str_eq, string_of, to_uppercase, unicode_uppercase,
};

verus! {

/// League points of a ranked ladder standing.
pub type LeaguePoints = u16;

/// Server region a player is tracked on.
#[derive(Debug, Clone, PartialEq, Eq, Structural)]
pub enum Region {
    Na,
    Euw,
    Eune,
    Oce,
    Ru,
    Tr,
    Br,
    Lan,
    Las,
    Jp,
    Kr,
    Tw,
}

/// Regional (account / match) API host of a region.
pub open spec fn global_endpoint_of(r: Region) -> Seq<char> {
    match r {
        Region::Lan | Region::Las | Region::Na | Region::Br => "americas.api.riotgames.com"@,
        Region::Euw | Region::Eune | Region::Tr | Region::Ru => "europe.api.riotgames.com"@,
        Region::Kr | Region::Jp => "asia.api.riotgames.com"@,
        Region::Oce | Region::Tw => "sea.api.riotgames.com"@,
    }
}

/// Platform (summoner / league) API host of a region.
pub open spec fn endpoint_of(r: Region) -> Seq<char> {
    match r {
        Region::Lan => "la1.api.riotgames.com"@,
        Region::Las => "la2.api.riotgames.com"@,
        Region::Na => "na1.api.riotgames.com"@,
        Region::Br => "br1.api.riotgames.com"@,
        Region::Euw => "euw1.api.riotgames.com"@,
        Region::Eune => "eun1.api.riotgames.com"@,
        Region::Tr => "tr1.api.riotgames.com"@,
        Region::Ru => "ru.api.riotgames.com"@,
        Region::Kr => "kr.api.riotgames.com"@,
        Region::Jp => "jp1.api.riotgames.com"@,
        Region::Oce => "oc1.api.riotgames.com"@,
        Region::Tw => "tw2.api.riotgames.com"@,
    }
}

/// Short upper-case name of a region (`EUW`).
pub open spec fn region_label(r: Region) -> Seq<char> {
    match r {
        Region::Lan => "LAN"@,
        Region::Las => "LAS"@,
        Region::Na => "NA"@,
        Region::Br => "BR"@,
        Region::Euw => "EUW"@,
        Region::Eune => "EUNE"@,
        Region::Tr => "TR"@,
        Region::Ru => "RU"@,
        Region::Kr => "KR"@,
        Region::Jp => "JP"@,
        Region::Oce => "OCE"@,
        Region::Tw => "TW"@,
    }
}

/// The region whose short name is the upper-cased token `u`.
pub open spec fn region_of_label(u: Seq<char>) -> Option<Region> {
    if u == "LAN"@ {
        Some(Region::Lan)
    } else if u == "LAS"@ {
        Some(Region::Las)
    } else if u == "NA"@ {
        Some(Region::Na)
    } else if u == "BR"@ {
        Some(Region::Br)
    } else if u == "EUW"@ {
        Some(Region::Euw)
    } else if u == "EUNE"@ {
        Some(Region::Eune)
    } else if u == "TR"@ {
        Some(Region::Tr)
    } else if u == "RU"@ {
        Some(Region::Ru)
    } else if u == "KR"@ {
        Some(Region::Kr)
    } else if u == "JP"@ {
        Some(Region::Jp)
    } else if u == "OCE"@ {
        Some(Region::Oce)
    } else if u == "TW"@ {
        Some(Region::Tw)
    } else {
        None
    }
}

/// A region's label (`EUW`) is ASCII, upper-cases to itself and names the
/// region: with [`Region::parse`]'s contract, `Region::try_from` of a region's
/// label gives the region back.
pub proof fn lemma_region_label_parses_back(g: Region)
    ensures
        is_ascii_text(region_label(g)),
        region_of_label(ascii_upper_text(region_label(g))) == Some(g),
{
    match g {
        Region::Lan => {
            reveal_strlit("LAN");
            assert(ascii_upper_text("LAN"@) =~= "LAN"@);
        },
        Region::Las => {
            reveal_strlit("LAS");
            reveal_strlit("LAN");
            assert("LAS"@[2] != "LAN"@[2]);
            assert(ascii_upper_text("LAS"@) =~= "LAS"@);
        },
        Region::Na => {
            reveal_strlit("NA");
            reveal_strlit("LAN");
            reveal_strlit("LAS");
            assert(ascii_upper_text("NA"@) =~= "NA"@);
        },
        Region::Br => {
            reveal_strlit("BR");
            reveal_strlit("LAN");
            reveal_strlit("LAS");
            reveal_strlit("NA");
            assert("BR"@[0] != "NA"@[0]);
            assert(ascii_upper_text("BR"@) =~= "BR"@);
        },
        Region::Euw => {
            reveal_strlit("EUW");
            reveal_strlit("LAN");
            assert("EUW"@[0] != "LAN"@[0]);
            reveal_strlit("LAS");
            assert("EUW"@[0] != "LAS"@[0]);
            reveal_strlit("NA");
            reveal_strlit("BR");
            assert(ascii_upper_text("EUW"@) =~= "EUW"@);
        },
        Region::Eune => {
            reveal_strlit("EUNE");
            reveal_strlit("LAN");
            reveal_strlit("LAS");
            reveal_strlit("NA");
            reveal_strlit("BR");
            reveal_strlit("EUW");
            assert(ascii_upper_text("EUNE"@) =~= "EUNE"@);
        },
        Region::Tr => {
            reveal_strlit("TR");
            reveal_strlit("LAN");
            reveal_strlit("LAS");
            reveal_strlit("NA");
            assert("TR"@[0] != "NA"@[0]);
            reveal_strlit("BR");
            assert("TR"@[0] != "BR"@[0]);
            reveal_strlit("EUW");
            reveal_strlit("EUNE");
            assert(ascii_upper_text("TR"@) =~= "TR"@);
        },
        Region::Ru => {
            reveal_strlit("RU");
            reveal_strlit("LAN");
            reveal_strlit("LAS");
            reveal_strlit("NA");
            assert("RU"@[0] != "NA"@[0]);
            reveal_strlit("BR");
            assert("RU"@[0] != "BR"@[0]);
            reveal_strlit("EUW");
            reveal_strlit("EUNE");
            reveal_strlit("TR");
            assert("RU"@[0] != "TR"@[0]);
            assert(ascii_upper_text("RU"@) =~= "RU"@);
        },
        Region::Kr => {
            reveal_strlit("KR");
            reveal_strlit("LAN");
            reveal_strlit("LAS");
            reveal_strlit("NA");
            assert("KR"@[0] != "NA"@[0]);
            reveal_strlit("BR");
            assert("KR"@[0] != "BR"@[0]);
            reveal_strlit("EUW");
            reveal_strlit("EUNE");
            reveal_strlit("TR");
            assert("KR"@[0] != "TR"@[0]);
            reveal_strlit("RU");
            assert("KR"@[0] != "RU"@[0]);
            assert(ascii_upper_text("KR"@) =~= "KR"@);
        },
        Region::Jp => {
            reveal_strlit("JP");
            reveal_strlit("LAN");
            reveal_strlit("LAS");
            reveal_strlit("NA");
            assert("JP"@[0] != "NA"@[0]);
            reveal_strlit("BR");
            assert("JP"@[0] != "BR"@[0]);
            reveal_strlit("EUW");
            reveal_strlit("EUNE");
            reveal_strlit("TR");
            assert("JP"@[0] != "TR"@[0]);
            reveal_strlit("RU");
            assert("JP"@[0] != "RU"@[0]);
            reveal_strlit("KR");
            assert("JP"@[0] != "KR"@[0]);
            assert(ascii_upper_text("JP"@) =~= "JP"@);
        },
        Region::Oce => {
            reveal_strlit("OCE");
            reveal_strlit("LAN");
            assert("OCE"@[0] != "LAN"@[0]);
            reveal_strlit("LAS");
            assert("OCE"@[0] != "LAS"@[0]);
            reveal_strlit("NA");
            reveal_strlit("BR");
            reveal_strlit("EUW");
            assert("OCE"@[0] != "EUW"@[0]);
            reveal_strlit("EUNE");
            reveal_strlit("TR");
            reveal_strlit("RU");
            reveal_strlit("KR");
            reveal_strlit("JP");
            assert(ascii_upper_text("OCE"@) =~= "OCE"@);
        },
        Region::Tw => {
            reveal_strlit("TW");
            reveal_strlit("LAN");
            reveal_strlit("LAS");
            reveal_strlit("NA");
            assert("TW"@[0] != "NA"@[0]);
            reveal_strlit("BR");
            assert("TW"@[0] != "BR"@[0]);
            reveal_strlit("EUW");
            reveal_strlit("EUNE");
            reveal_strlit("TR");
            assert("TW"@[1] != "TR"@[1]);
            reveal_strlit("RU");
            assert("TW"@[0] != "RU"@[0]);
            reveal_strlit("KR");
            assert("TW"@[0] != "KR"@[0]);
            reveal_strlit("JP");
            assert("TW"@[0] != "JP"@[0]);
            reveal_strlit("OCE");
            assert(ascii_upper_text("TW"@) =~= "TW"@);
        },
    }
}

/// `r` is what parsing the text `s`, upper-cased to `up`, gives: the region
/// `up` names, else `Unknown region: <s>`.
pub open spec fn region_parsed(r: Result<Region, String>, s: Seq<char>, up: Seq<char>) -> bool {
    match region_of_label(up) {
        Some(g) => r == Ok::<Region, String>(g),
        None => r matches Err(m) && m@ == "Unknown region: "@ + s,
    }
}

impl Region {
    /// Regional API host (`europe.api.riotgames.com`).
    pub fn to_global_endpoint(&self) -> (r: String)
        ensures
            r@ == global_endpoint_of(*self),
    {
        let s = match self {
            Region::Lan | Region::Las | Region::Na | Region::Br => "americas.api.riotgames.com",
            Region::Euw | Region::Eune | Region::Tr | Region::Ru => "europe.api.riotgames.com",
            Region::Kr | Region::Jp => "asia.api.riotgames.com",
            Region::Oce | Region::Tw => "sea.api.riotgames.com",
        };
        string_of(s)
    }

    /// Platform API host (`euw1.api.riotgames.com`).
    pub fn to_endpoint(&self) -> (r: String)
        ensures
            r@ == endpoint_of(*self),
    {
        let s = match self {
            Region::Lan => "la1.api.riotgames.com",
            Region::Las => "la2.api.riotgames.com",
            Region::Na => "na1.api.riotgames.com",
            Region::Br => "br1.api.riotgames.com",
            Region::Euw => "euw1.api.riotgames.com",
            Region::Eune => "eun1.api.riotgames.com",
            Region::Tr => "tr1.api.riotgames.com",
            Region::Ru => "ru.api.riotgames.com",
            Region::Kr => "kr.api.riotgames.com",
            Region::Jp => "jp1.api.riotgames.com",
            Region::Oce => "oc1.api.riotgames.com",
            Region::Tw => "tw2.api.riotgames.com",
        };
        string_of(s)
    }

    /// Short upper-case name (`EUW`); what `String::from(region)` gives.
    pub fn label(&self) -> (r: String)
        ensures
            r@ == region_label(*self),
    {
        let s = match self {
            Region::Lan => "LAN",
            Region::Las => "LAS",
            Region::Na => "NA",
            Region::Br => "BR",
            Region::Euw => "EUW",
            Region::Eune => "EUNE",
            Region::Tr => "TR",
            Region::Ru => "RU",
            Region::Kr => "KR",
            Region::Jp => "JP",
            Region::Oce => "OCE",
            Region::Tw => "TW",
        };
        string_of(s)
    }

    /// Parse a region from its short name, case-insensitively; anything else
    /// is `Unknown region: <value>`. What `Region::try_from(value)` gives.
    pub fn parse(value: String) -> (r: Result<Region, String>)
        ensures
            region_parsed(r, value@, unicode_uppercase(value@)),
            is_ascii_text(value@) ==> region_parsed(r, value@, ascii_upper_text(value@)),
    {
        let up = to_uppercase(value.as_str());
        let u = up.as_str();
        if str_eq(u, "LAN") {
            Ok(Region::Lan)
        } else if str_eq(u, "LAS") {
            Ok(Region::Las)
        } else if str_eq(u, "NA") {
            Ok(Region::Na)
        } else if str_eq(u, "BR") {
            Ok(Region::Br)
        } else if str_eq(u, "EUW") {
            Ok(Region::Euw)
        } else if str_eq(u, "EUNE") {
            Ok(Region::Eune)
        } else if str_eq(u, "TR") {
            Ok(Region::Tr)
        } else if str_eq(u, "RU") {
            Ok(Region::Ru)
        } else if str_eq(u, "KR") {
            Ok(Region::Kr)
        } else if str_eq(u, "JP") {
            Ok(Region::Jp)
        } else if str_eq(u, "OCE") {
            Ok(Region::Oce)
        } else if str_eq(u, "TW") {
            Ok(Region::Tw)
        } else {
            let mut m = string_of("Unknown region: ");
            push_str(&mut m, value.as_str());
            Err(m)
        }
    }
}

impl From<Region> for String {
    fn from(region: Region) -> String {
        region.label()
    }
}

impl vstd::std_specs::convert::FromSpecImpl<Region> for String {
    open spec fn obeys_from_spec() -> bool {
        false
    }

    open spec fn from_spec(v: Region) -> String {
        vstd::pervasive::arbitrary()
    }
}

impl TryFrom<String> for Region {
    type Error = String;

    fn try_from(value: String) -> (r: Result<Region, String>)
        ensures
            region_parsed(r, value@, unicode_uppercase(value@)),
            is_ascii_text(value@) ==> region_parsed(r, value@, ascii_upper_text(value@)),
    {
        Region::parse(value)
    }
}

impl vstd::std_specs::convert::TryFromSpecImpl<String> for Region {
    open spec fn obeys_try_from_spec() -> bool {
        false
    }

    open spec fn try_from_spec(v: String) -> Result<Region, String> {
        vstd::pervasive::arbitrary()
    }
}

/// Queue of a match, as far as league tracking distinguishes them.
#[derive(Debug, Clone, Copy, PartialEq, Eq, Structural)]
pub enum QueueType {
    /// Ranked Solo/Duo
    SoloDuo,
    /// Ranked Flex
    Flex,
    /// 5v5 Normal Draft Picks
    NormalDraft,
    /// 5v5 Howling Abyss ARAM
    Aram,
    Unhandled,
}

/// Queue type of a queue id.
pub open spec fn queue_type_of(id: u16) -> QueueType {
    if id == 400 {
        QueueType::NormalDraft
    } else if id == 420 {
        QueueType::SoloDuo
    } else if id == 440 {
        QueueType::Flex
    } else if id == 450 {
        QueueType::Aram
    } else {
        QueueType::Unhandled
    }
}

/// League queue name of a queue type (empty for queues without a league).
pub open spec fn queue_type_name(q: QueueType) -> Seq<char> {
    match q {
        QueueType::SoloDuo => "RANKED_SOLO_5x5"@,
        QueueType::Flex => "RANKED_FLEX_SR"@,
        QueueType::NormalDraft => ""@,
        QueueType::Aram => ""@,
        QueueType::Unhandled => "UNHANDLED"@,
    }
}

impl QueueType {
    /// Queue type of a queue id (`420` -> Solo/Duo).
    pub fn from_queue_id(value: u16) -> (r: QueueType)
        ensures
            r == queue_type_of(value),
    {
        match value {
            400 => QueueType::NormalDraft,
            420 => QueueType::SoloDuo,
            440 => QueueType::Flex,
            450 => QueueType::Aram,
            _ => QueueType::Unhandled,
        }
    }

    /// League queue name (`RANKED_SOLO_5x5`).
    pub fn as_str(&self) -> (r: &'static str)
        ensures
            r@ == queue_type_name(*self),
    {
        match self {
            QueueType::SoloDuo => "RANKED_SOLO_5x5",
            QueueType::Flex => "RANKED_FLEX_SR",
            QueueType::NormalDraft => "",
            QueueType::Aram => "",
            QueueType::Unhandled => "UNHANDLED",
        }
    }
}

impl From<u16> for QueueType {
    fn from(value: u16) -> QueueType {
        QueueType::from_queue_id(value)
    }
}

impl vstd::std_specs::convert::FromSpecImpl<u16> for QueueType {
    open spec fn obeys_from_spec() -> bool {
        true
    }

    open spec fn from_spec(v: u16) -> QueueType {
        queue_type_of(v)
    }
}

/// An account tracked by the bot.
#[derive(Debug, Clone)]
pub struct Account {
    pub puuid: String,
    pub game_name: String,
    pub tag_line: String,
    pub region: Region,
    pub last_match_id: String,
}

/// A league standing tracked by the bot.
#[derive(Debug, Clone)]
pub struct League {
    pub points: LeaguePoints,
    pub wins: u16,
    pub losses: u16,
}

} // verus!

//! Riot routing values: platforms (summoner/league/mastery endpoints) and
//! regional clusters (account/match endpoints).
use vstd::prelude::*;

use crate::error::AppError;
use crate::types::{endpoint_of, global_endpoint_of, region_label};
use crate::text::{
    ascii_upper_text, is_ascii_text, push_str, str_eq, string_of, to_uppercase, unicode_uppercase,
};

verus! {

/// Platform routing values (Summoner-v4, League-v4, Champion-mastery-v4).
#[derive(Debug, Clone, Copy, PartialEq, Eq, Hash)]
pub enum Platform {
    BR1,
    LA1,
    LA2,
    NA1,
    JP1,
    KR,
    EUN1,
    EUW1,
    ME1,
    RU,
    TR1,
    OC1,
    PH2,
    SG2,
    TH2,
    TW2,
    VN2,
}

/// Regional routing values (Account-v1, Match-v5).
#[derive(Debug, Clone, Copy, PartialEq, Eq, Hash)]
pub enum Region {
    Americas,
    Asia,
    Europe,
    Sea,
}

/// Host label of a platform (`euw1`).
pub open spec fn platform_code(p: Platform) -> Seq<char> {
    // Each label differs from every token tested before it: at some position,
    // or in length.
    match p {
        Platform::BR1 => "br1"@,
        Platform::LA1 => "la1"@,
        Platform::LA2 => "la2"@,
        Platform::NA1 => "na1"@,
        Platform::JP1 => "jp1"@,
        Platform::KR => "kr"@,
        Platform::EUN1 => "eun1"@,
        Platform::EUW1 => "euw1"@,
        Platform::ME1 => "me1"@,
        Platform::RU => "ru"@,
        Platform::TR1 => "tr1"@,
        Platform::OC1 => "oc1"@,
        Platform::PH2 => "ph2"@,
        Platform::SG2 => "sg2"@,
        Platform::TH2 => "th2"@,
        Platform::TW2 => "tw2"@,
        Platform::VN2 => "vn2"@,
    }
}

/// Upper-case label of a platform as displayed (`EUW1`).
pub open spec fn platform_label(p: Platform) -> Seq<char> {
    match p {
        Platform::BR1 => "BR1"@,
        Platform::LA1 => "LA1"@,
        Platform::LA2 => "LA2"@,
        Platform::NA1 => "NA1"@,
        Platform::JP1 => "JP1"@,
        Platform::KR => "KR"@,
        Platform::EUN1 => "EUN1"@,
        Platform::EUW1 => "EUW1"@,
        Platform::ME1 => "ME1"@,
        Platform::RU => "RU"@,
        Platform::TR1 => "TR1"@,
        Platform::OC1 => "OC1"@,
        Platform::PH2 => "PH2"@,
        Platform::SG2 => "SG2"@,
        Platform::TH2 => "TH2"@,
        Platform::TW2 => "TW2"@,
        Platform::VN2 => "VN2"@,
    }
}

/// Regional cluster serving a platform.
pub open spec fn platform_region(p: Platform) -> Region {
    match p {
        Platform::BR1 | Platform::LA1 | Platform::LA2 | Platform::NA1 => Region::Americas,
        Platform::JP1 | Platform::KR => Region::Asia,
        Platform::EUN1 | Platform::EUW1 | Platform::ME1 | Platform::RU | Platform::TR1 => Region::Europe,
        Platform::OC1 | Platform::PH2 | Platform::SG2 | Platform::TH2 | Platform::TW2
        | Platform::VN2 => Region::Sea,
    }
}

/// Human-readable platform name.
pub open spec fn platform_display_name(p: Platform) -> Seq<char> {
    match p {
        Platform::BR1 => "Brazil"@,
        Platform::LA1 => "Latin America North"@,
        Platform::LA2 => "Latin America South"@,
        Platform::NA1 => "North America"@,
        Platform::JP1 => "Japan"@,
        Platform::KR => "Korea"@,
        Platform::EUN1 => "EU Nordic & East"@,
        Platform::EUW1 => "EU West"@,
        Platform::ME1 => "Middle East"@,
        Platform::RU => "Russia"@,
        Platform::TR1 => "Turkey"@,
        Platform::OC1 => "Oceania"@,
        Platform::PH2 => "Philippines"@,
        Platform::SG2 => "Singapore"@,
        Platform::TH2 => "Thailand"@,
        Platform::TW2 => "Taiwan"@,
        Platform::VN2 => "Vietnam"@,
    }
}

/// The platform named by an upper-cased token (short name or host label).
pub open spec fn platform_of_token(u: Seq<char>) -> Option<Platform> {
    if u == "BR"@ || u == "BR1"@ {
        Some(Platform::BR1)
    } else if u == "LAN"@ || u == "LA1"@ {
        Some(Platform::LA1)
    } else if u == "LAS"@ || u == "LA2"@ {
        Some(Platform::LA2)
    } else if u == "NA"@ || u == "NA1"@ {
        Some(Platform::NA1)
    } else if u == "JP"@ || u == "JP1"@ {
        Some(Platform::JP1)
    } else if u == "KR"@ {
        Some(Platform::KR)
    } else if u == "EUNE"@ || u == "EUN"@ || u == "EUN1"@ {
        Some(Platform::EUN1)
    } else if u == "EUW"@ || u == "EUW1"@ {
        Some(Platform::EUW1)
    } else if u == "ME"@ || u == "ME1"@ {
        Some(Platform::ME1)
    } else if u == "RU"@ {
        Some(Platform::RU)
    } else if u == "TR"@ || u == "TR1"@ {
        Some(Platform::TR1)
    } else if u == "OCE"@ || u == "OC"@ || u == "OC1"@ {
        Some(Platform::OC1)
    } else if u == "PH"@ || u == "PH2"@ {
        Some(Platform::PH2)
    } else if u == "SG"@ || u == "SG2"@ {
        Some(Platform::SG2)
    } else if u == "TH"@ || u == "TH2"@ {
        Some(Platform::TH2)
    } else if u == "TW"@ || u == "TW2"@ {
        Some(Platform::TW2)
    } else if u == "VN"@ || u == "VN2"@ {
        Some(Platform::VN2)
    } else {
        None
    }
}

/// `r` is what parsing the text `s`, upper-cased to `up`, gives: the
/// platform `up` names, else `InvalidRegion` carrying `s`.
pub open spec fn platform_parsed(r: Result<Platform, AppError>, s: Seq<char>, up: Seq<char>) -> bool {
    match platform_of_token(up) {
        Some(p) => r == Ok::<Platform, AppError>(p),
        None => r matches Err(AppError::InvalidRegion(t)) && t@ == s,
    }
}

/// A platform's displayed label (`EUW1`) names that platform when parsed.
pub proof fn lemma_label_names_platform(p: Platform)
    ensures
        platform_of_token(platform_label(p)) == Some(p),
{
    reveal_strlit("BR");
    reveal_strlit("BR1");
    reveal_strlit("EUN");
    reveal_strlit("EUN1");
    reveal_strlit("EUNE");
    reveal_strlit("EUW");
    reveal_strlit("EUW1");
    reveal_strlit("JP");
    reveal_strlit("JP1");
    reveal_strlit("KR");
    reveal_strlit("LA1");
    reveal_strlit("LA2");
    reveal_strlit("LAN");
    reveal_strlit("LAS");
    reveal_strlit("ME");
    reveal_strlit("ME1");
    reveal_strlit("NA");
    reveal_strlit("NA1");
    reveal_strlit("OC");
    reveal_strlit("OC1");
    reveal_strlit("OCE");
    reveal_strlit("PH");
    reveal_strlit("PH2");
    reveal_strlit("RU");
    reveal_strlit("SG");
    reveal_strlit("SG2");
    reveal_strlit("TH");
    reveal_strlit("TH2");
    reveal_strlit("TR");
    reveal_strlit("TR1");
    reveal_strlit("TW");
    reveal_strlit("TW2");
    reveal_strlit("VN");
    reveal_strlit("VN2");
    match p {
        Platform::BR1 => {},
        Platform::LA1 => {
            assert("LA1"@[0] != "BR1"@[0]);
            assert("LA1"@[2] != "LAN"@[2]);
        },
        Platform::LA2 => {
            assert("LA2"@[0] != "BR1"@[0]);
            assert("LA2"@[2] != "LAN"@[2]);
            assert("LA2"@[2] != "LA1"@[2]);
            assert("LA2"@[2] != "LAS"@[2]);
        },
        Platform::NA1 => {
            assert("NA1"@[0] != "BR1"@[0]);
            assert("NA1"@[0] != "LAN"@[0]);
            assert("NA1"@[0] != "LA1"@[0]);
            assert("NA1"@[0] != "LAS"@[0]);
            assert("NA1"@[0] != "LA2"@[0]);
        },
        Platform::JP1 => {
            assert("JP1"@[0] != "BR1"@[0]);
            assert("JP1"@[0] != "LAN"@[0]);
            assert("JP1"@[0] != "LA1"@[0]);
            assert("JP1"@[0] != "LAS"@[0]);
            assert("JP1"@[0] != "LA2"@[0]);
            assert("JP1"@[0] != "NA1"@[0]);
        },
        Platform::KR => {
            assert("KR"@[0] != "BR"@[0]);
            assert("KR"@[0] != "NA"@[0]);
            assert("KR"@[0] != "JP"@[0]);
        },
        Platform::EUN1 => {
            assert("EUN1"@[3] != "EUNE"@[3]);
            assert("EUN1"@.len() != "EUN"@.len());
        },
        Platform::EUW1 => {
            assert("EUW1"@[2] != "EUNE"@[2]);
            assert("EUW1"@[2] != "EUN1"@[2]);
            assert("EUW1"@.len() != "EUN"@.len());
            assert("EUW1"@.len() != "EUW"@.len());
        },
        Platform::ME1 => {
            assert("ME1"@[0] != "BR1"@[0]);
            assert("ME1"@[0] != "LAN"@[0]);
            assert("ME1"@[0] != "LA1"@[0]);
            assert("ME1"@[0] != "LAS"@[0]);
            assert("ME1"@[0] != "LA2"@[0]);
            assert("ME1"@[0] != "NA1"@[0]);
            assert("ME1"@[0] != "JP1"@[0]);
            assert("ME1"@[0] != "EUN"@[0]);
            assert("ME1"@[0] != "EUW"@[0]);
        },
        Platform::RU => {
            assert("RU"@[0] != "BR"@[0]);
            assert("RU"@[0] != "NA"@[0]);
            assert("RU"@[0] != "JP"@[0]);
            assert("RU"@[0] != "KR"@[0]);
            assert("RU"@[0] != "ME"@[0]);
        },
        Platform::TR1 => {
            assert("TR1"@[0] != "BR1"@[0]);
            assert("TR1"@[0] != "LAN"@[0]);
            assert("TR1"@[0] != "LA1"@[0]);
            assert("TR1"@[0] != "LAS"@[0]);
            assert("TR1"@[0] != "LA2"@[0]);
            assert("TR1"@[0] != "NA1"@[0]);
            assert("TR1"@[0] != "JP1"@[0]);
            assert("TR1"@[0] != "EUN"@[0]);
            assert("TR1"@[0] != "EUW"@[0]);
            assert("TR1"@[0] != "ME1"@[0]);
        },
        Platform::OC1 => {
            assert("OC1"@[0] != "BR1"@[0]);
            assert("OC1"@[0] != "LAN"@[0]);
            assert("OC1"@[0] != "LA1"@[0]);
            assert("OC1"@[0] != "LAS"@[0]);
            assert("OC1"@[0] != "LA2"@[0]);
            assert("OC1"@[0] != "NA1"@[0]);
            assert("OC1"@[0] != "JP1"@[0]);
            assert("OC1"@[0] != "EUN"@[0]);
            assert("OC1"@[0] != "EUW"@[0]);
            assert("OC1"@[0] != "ME1"@[0]);
            assert("OC1"@[0] != "TR1"@[0]);
            assert("OC1"@[2] != "OCE"@[2]);
        },
        Platform::PH2 => {
            assert("PH2"@[0] != "BR1"@[0]);
            assert("PH2"@[0] != "LAN"@[0]);
            assert("PH2"@[0] != "LA1"@[0]);
            assert("PH2"@[0] != "LAS"@[0]);
            assert("PH2"@[0] != "LA2"@[0]);
            assert("PH2"@[0] != "NA1"@[0]);
            assert("PH2"@[0] != "JP1"@[0]);
            assert("PH2"@[0] != "EUN"@[0]);
            assert("PH2"@[0] != "EUW"@[0]);
            assert("PH2"@[0] != "ME1"@[0]);
            assert("PH2"@[0] != "TR1"@[0]);
            assert("PH2"@[0] != "OCE"@[0]);
            assert("PH2"@[0] != "OC1"@[0]);
        },
        Platform::SG2 => {
            assert("SG2"@[0] != "BR1"@[0]);
            assert("SG2"@[0] != "LAN"@[0]);
            assert("SG2"@[0] != "LA1"@[0]);
            assert("SG2"@[0] != "LAS"@[0]);
            assert("SG2"@[0] != "LA2"@[0]);
            assert("SG2"@[0] != "NA1"@[0]);
            assert("SG2"@[0] != "JP1"@[0]);
            assert("SG2"@[0] != "EUN"@[0]);
            assert("SG2"@[0] != "EUW"@[0]);
            assert("SG2"@[0] != "ME1"@[0]);
            assert("SG2"@[0] != "TR1"@[0]);
            assert("SG2"@[0] != "OCE"@[0]);
            assert("SG2"@[0] != "OC1"@[0]);
            assert("SG2"@[0] != "PH2"@[0]);
        },
        Platform::TH2 => {
            assert("TH2"@[0] != "BR1"@[0]);
            assert("TH2"@[0] != "LAN"@[0]);
            assert("TH2"@[0] != "LA1"@[0]);
            assert("TH2"@[0] != "LAS"@[0]);
            assert("TH2"@[0] != "LA2"@[0]);
            assert("TH2"@[0] != "NA1"@[0]);
            assert("TH2"@[0] != "JP1"@[0]);
            assert("TH2"@[0] != "EUN"@[0]);
            assert("TH2"@[0] != "EUW"@[0]);
            assert("TH2"@[0] != "ME1"@[0]);
            assert("TH2"@[1] != "TR1"@[1]);
            assert("TH2"@[0] != "OCE"@[0]);
            assert("TH2"@[0] != "OC1"@[0]);
            assert("TH2"@[0] != "PH2"@[0]);
            assert("TH2"@[0] != "SG2"@[0]);
        },
        Platform::TW2 => {
            assert("TW2"@[0] != "BR1"@[0]);
            assert("TW2"@[0] != "LAN"@[0]);
            assert("TW2"@[0] != "LA1"@[0]);
            assert("TW2"@[0] != "LAS"@[0]);
            assert("TW2"@[0] != "LA2"@[0]);
            assert("TW2"@[0] != "NA1"@[0]);
            assert("TW2"@[0] != "JP1"@[0]);
            assert("TW2"@[0] != "EUN"@[0]);
            assert("TW2"@[0] != "EUW"@[0]);
            assert("TW2"@[0] != "ME1"@[0]);
            assert("TW2"@[1] != "TR1"@[1]);
            assert("TW2"@[0] != "OCE"@[0]);
            assert("TW2"@[0] != "OC1"@[0]);
            assert("TW2"@[0] != "PH2"@[0]);
            assert("TW2"@[0] != "SG2"@[0]);
            assert("TW2"@[1] != "TH2"@[1]);
        },
        Platform::VN2 => {
            assert("VN2"@[0] != "BR1"@[0]);
            assert("VN2"@[0] != "LAN"@[0]);
            assert("VN2"@[0] != "LA1"@[0]);
            assert("VN2"@[0] != "LAS"@[0]);
            assert("VN2"@[0] != "LA2"@[0]);
            assert("VN2"@[0] != "NA1"@[0]);
            assert("VN2"@[0] != "JP1"@[0]);
            assert("VN2"@[0] != "EUN"@[0]);
            assert("VN2"@[0] != "EUW"@[0]);
            assert("VN2"@[0] != "ME1"@[0]);
            assert("VN2"@[0] != "TR1"@[0]);
            assert("VN2"@[0] != "OCE"@[0]);
            assert("VN2"@[0] != "OC1"@[0]);
            assert("VN2"@[0] != "PH2"@[0]);
            assert("VN2"@[0] != "SG2"@[0]);
            assert("VN2"@[0] != "TH2"@[0]);
            assert("VN2"@[0] != "TW2"@[0]);
        },
    }
}

/// A platform's host label (`euw1`) is ASCII and upper-cases to its label
/// (`EUW1`), which names the platform: with [`Platform::parse`]'s contract,
/// parsing the host label gives the platform back.
pub proof fn lemma_host_label_parses_back(p: Platform)
    ensures
        is_ascii_text(platform_code(p)),
        platform_of_token(ascii_upper_text(platform_code(p))) == Some(p),
{
    lemma_label_names_platform(p);
    match p {
        Platform::BR1 => {
            reveal_strlit("br1");
            reveal_strlit("BR1");
            assert(ascii_upper_text("br1"@) =~= "BR1"@);
        },
        Platform::LA1 => {
            reveal_strlit("la1");
            reveal_strlit("LA1");
            assert(ascii_upper_text("la1"@) =~= "LA1"@);
        },
        Platform::LA2 => {
            reveal_strlit("la2");
            reveal_strlit("LA2");
            assert(ascii_upper_text("la2"@) =~= "LA2"@);
        },
        Platform::NA1 => {
            reveal_strlit("na1");
            reveal_strlit("NA1");
            assert(ascii_upper_text("na1"@) =~= "NA1"@);
        },
        Platform::JP1 => {
            reveal_strlit("jp1");
            reveal_strlit("JP1");
            assert(ascii_upper_text("jp1"@) =~= "JP1"@);
        },
        Platform::KR => {
            reveal_strlit("kr");
            reveal_strlit("KR");
            assert(ascii_upper_text("kr"@) =~= "KR"@);
        },
        Platform::EUN1 => {
            reveal_strlit("eun1");
            reveal_strlit("EUN1");
            assert(ascii_upper_text("eun1"@) =~= "EUN1"@);
        },
        Platform::EUW1 => {
            reveal_strlit("euw1");
            reveal_strlit("EUW1");
            assert(ascii_upper_text("euw1"@) =~= "EUW1"@);
        },
        Platform::ME1 => {
            reveal_strlit("me1");
            reveal_strlit("ME1");
            assert(ascii_upper_text("me1"@) =~= "ME1"@);
        },
        Platform::RU => {
            reveal_strlit("ru");
            reveal_strlit("RU");
            assert(ascii_upper_text("ru"@) =~= "RU"@);
        },
        Platform::TR1 => {
            reveal_strlit("tr1");
            reveal_strlit("TR1");
            assert(ascii_upper_text("tr1"@) =~= "TR1"@);
        },
        Platform::OC1 => {
            reveal_strlit("oc1");
            reveal_strlit("OC1");
            assert(ascii_upper_text("oc1"@) =~= "OC1"@);
        },
        Platform::PH2 => {
            reveal_strlit("ph2");
            reveal_strlit("PH2");
            assert(ascii_upper_text("ph2"@) =~= "PH2"@);
        },
        Platform::SG2 => {
            reveal_strlit("sg2");
            reveal_strlit("SG2");
            assert(ascii_upper_text("sg2"@) =~= "SG2"@);
        },
        Platform::TH2 => {
            reveal_strlit("th2");
            reveal_strlit("TH2");
            assert(ascii_upper_text("th2"@) =~= "TH2"@);
        },
        Platform::TW2 => {
            reveal_strlit("tw2");
            reveal_strlit("TW2");
            assert(ascii_upper_text("tw2"@) =~= "TW2"@);
        },
        Platform::VN2 => {
            reveal_strlit("vn2");
            reveal_strlit("VN2");
            assert(ascii_upper_text("vn2"@) =~= "VN2"@);
        },
    }
}

/// Host label of a regional cluster (`europe`).
pub open spec fn region_code(r: Region) -> Seq<char> {
    match r {
        Region::Americas => "americas"@,
        Region::Asia => "asia"@,
        Region::Europe => "europe"@,
        Region::Sea => "sea"@,
    }
}

/// The hosts of a league region (`EUW`) are those of the platform its label
/// names (`EUW1`): its platform host `euw1.api.riotgames.com` and the host of
/// that platform's regional cluster, `europe.api.riotgames.com`.
pub proof fn lemma_region_hosts_follow_platform(r: crate::types::Region)
    ensures
        platform_of_token(region_label(r)) matches Some(p) && endpoint_of(r) == platform_code(p)
            + ".api.riotgames.com"@ && global_endpoint_of(r) == region_code(platform_region(p))
            + ".api.riotgames.com"@,
{
    match r {
        crate::types::Region::Lan => {
            reveal_strlit("LAN");
            reveal_strlit("BR");
            reveal_strlit("BR1");
            assert("LAN"@[0] != "BR1"@[0]);
            reveal_strlit("la1");
            reveal_strlit("americas");
            reveal_strlit(".api.riotgames.com");
            reveal_strlit("la1.api.riotgames.com");
            reveal_strlit("americas.api.riotgames.com");
            assert("la1"@ + ".api.riotgames.com"@ =~= "la1.api.riotgames.com"@);
            assert("americas"@ + ".api.riotgames.com"@ =~= "americas.api.riotgames.com"@);
            assert(platform_of_token("LAN"@) == Some(Platform::LA1));
        },
        crate::types::Region::Las => {
            reveal_strlit("LAS");
            reveal_strlit("BR");
            reveal_strlit("BR1");
            assert("LAS"@[0] != "BR1"@[0]);
            reveal_strlit("LAN");
            assert("LAS"@[2] != "LAN"@[2]);
            reveal_strlit("LA1");
            assert("LAS"@[2] != "LA1"@[2]);
            reveal_strlit("la2");
            reveal_strlit("americas");
            reveal_strlit(".api.riotgames.com");
            reveal_strlit("la2.api.riotgames.com");
            reveal_strlit("americas.api.riotgames.com");
            assert("la2"@ + ".api.riotgames.com"@ =~= "la2.api.riotgames.com"@);
            assert("americas"@ + ".api.riotgames.com"@ =~= "americas.api.riotgames.com"@);
            assert(platform_of_token("LAS"@) == Some(Platform::LA2));
        },
        crate::types::Region::Na => {
            reveal_strlit("NA");
            reveal_strlit("BR");
            assert("NA"@[0] != "BR"@[0]);
            reveal_strlit("BR1");
            reveal_strlit("LAN");
            reveal_strlit("LA1");
            reveal_strlit("LAS");
            reveal_strlit("LA2");
            reveal_strlit("na1");
            reveal_strlit("americas");
            reveal_strlit(".api.riotgames.com");
            reveal_strlit("na1.api.riotgames.com");
            reveal_strlit("americas.api.riotgames.com");
            assert("na1"@ + ".api.riotgames.com"@ =~= "na1.api.riotgames.com"@);
            assert("americas"@ + ".api.riotgames.com"@ =~= "americas.api.riotgames.com"@);
            assert(platform_of_token("NA"@) == Some(Platform::NA1));
        },
        crate::types::Region::Br => {
            reveal_strlit("BR");
            reveal_strlit("br1");
            reveal_strlit("americas");
            reveal_strlit(".api.riotgames.com");
            reveal_strlit("br1.api.riotgames.com");
            reveal_strlit("americas.api.riotgames.com");
            assert("br1"@ + ".api.riotgames.com"@ =~= "br1.api.riotgames.com"@);
            assert("americas"@ + ".api.riotgames.com"@ =~= "americas.api.riotgames.com"@);
            assert(platform_of_token("BR"@) == Some(Platform::BR1));
        },
        crate::types::Region::Euw => {
            reveal_strlit("EUW");
            reveal_strlit("BR");
            reveal_strlit("BR1");
            assert("EUW"@[0] != "BR1"@[0]);
            reveal_strlit("LAN");
            assert("EUW"@[0] != "LAN"@[0]);
            reveal_strlit("LA1");
            assert("EUW"@[0] != "LA1"@[0]);
            reveal_strlit("LAS");
            assert("EUW"@[0] != "LAS"@[0]);
            reveal_strlit("LA2");
            assert("EUW"@[0] != "LA2"@[0]);
            reveal_strlit("NA");
            reveal_strlit("NA1");
            assert("EUW"@[0] != "NA1"@[0]);
            reveal_strlit("JP");
            reveal_strlit("JP1");
            assert("EUW"@[0] != "JP1"@[0]);
            reveal_strlit("KR");
            reveal_strlit("EUNE");
            reveal_strlit("EUN");
            assert("EUW"@[2] != "EUN"@[2]);
            reveal_strlit("EUN1");
            reveal_strlit("euw1");
            reveal_strlit("europe");
            reveal_strlit(".api.riotgames.com");
            reveal_strlit("euw1.api.riotgames.com");
            reveal_strlit("europe.api.riotgames.com");
            assert("euw1"@ + ".api.riotgames.com"@ =~= "euw1.api.riotgames.com"@);
            assert("europe"@ + ".api.riotgames.com"@ =~= "europe.api.riotgames.com"@);
            assert(platform_of_token("EUW"@) == Some(Platform::EUW1));
        },
        crate::types::Region::Eune => {
            reveal_strlit("EUNE");
            reveal_strlit("BR");
            reveal_strlit("BR1");
            reveal_strlit("LAN");
            reveal_strlit("LA1");
            reveal_strlit("LAS");
            reveal_strlit("LA2");
            reveal_strlit("NA");
            reveal_strlit("NA1");
            reveal_strlit("JP");
            reveal_strlit("JP1");
            reveal_strlit("KR");
            reveal_strlit("eun1");
            reveal_strlit("europe");
            reveal_strlit(".api.riotgames.com");
            reveal_strlit("eun1.api.riotgames.com");
            reveal_strlit("europe.api.riotgames.com");
            assert("eun1"@ + ".api.riotgames.com"@ =~= "eun1.api.riotgames.com"@);
            assert("europe"@ + ".api.riotgames.com"@ =~= "europe.api.riotgames.com"@);
            assert("EUNE"@.len() == 4);
            assert(platform_of_token("EUNE"@) == Some(Platform::EUN1));
        },
        crate::types::Region::Tr => {
            reveal_strlit("TR");
            reveal_strlit("BR");
            assert("TR"@[0] != "BR"@[0]);
            reveal_strlit("BR1");
            reveal_strlit("LAN");
            reveal_strlit("LA1");
            reveal_strlit("LAS");
            reveal_strlit("LA2");
            reveal_strlit("NA");
            assert("TR"@[0] != "NA"@[0]);
            reveal_strlit("NA1");
            reveal_strlit("JP");
            assert("TR"@[0] != "JP"@[0]);
            reveal_strlit("JP1");
            reveal_strlit("KR");
            assert("TR"@[0] != "KR"@[0]);
            reveal_strlit("EUNE");
            reveal_strlit("EUN");
            reveal_strlit("EUN1");
            reveal_strlit("EUW");
            reveal_strlit("EUW1");
            reveal_strlit("ME");
            assert("TR"@[0] != "ME"@[0]);
            reveal_strlit("ME1");
            reveal_strlit("RU");
            assert("TR"@[0] != "RU"@[0]);
            reveal_strlit("tr1");
            reveal_strlit("europe");
            reveal_strlit(".api.riotgames.com");
            reveal_strlit("tr1.api.riotgames.com");
            reveal_strlit("europe.api.riotgames.com");
            assert("tr1"@ + ".api.riotgames.com"@ =~= "tr1.api.riotgames.com"@);
            assert("europe"@ + ".api.riotgames.com"@ =~= "europe.api.riotgames.com"@);
            assert(platform_of_token("TR"@) == Some(Platform::TR1));
        },
        crate::types::Region::Ru => {
            reveal_strlit("RU");
            reveal_strlit("BR");
            assert("RU"@[0] != "BR"@[0]);
            reveal_strlit("BR1");
            reveal_strlit("LAN");
            reveal_strlit("LA1");
            reveal_strlit("LAS");
            reveal_strlit("LA2");
            reveal_strlit("NA");
            assert("RU"@[0] != "NA"@[0]);
            reveal_strlit("NA1");
            reveal_strlit("JP");
            assert("RU"@[0] != "JP"@[0]);
            reveal_strlit("JP1");
            reveal_strlit("KR");
            assert("RU"@[0] != "KR"@[0]);
            reveal_strlit("EUNE");
            reveal_strlit("EUN");
            reveal_strlit("EUN1");
            reveal_strlit("EUW");
            reveal_strlit("EUW1");
            reveal_strlit("ME");
            assert("RU"@[0] != "ME"@[0]);
            reveal_strlit("ME1");
            reveal_strlit("ru");
            reveal_strlit("europe");
            reveal_strlit(".api.riotgames.com");
            reveal_strlit("ru.api.riotgames.com");
            reveal_strlit("europe.api.riotgames.com");
            assert("ru"@ + ".api.riotgames.com"@ =~= "ru.api.riotgames.com"@);
            assert("europe"@ + ".api.riotgames.com"@ =~= "europe.api.riotgames.com"@);
            assert(platform_of_token("RU"@) == Some(Platform::RU));
        },
        crate::types::Region::Kr => {
            reveal_strlit("KR");
            reveal_strlit("BR");
            assert("KR"@[0] != "BR"@[0]);
            reveal_strlit("BR1");
            reveal_strlit("LAN");
            reveal_strlit("LA1");
            reveal_strlit("LAS");
            reveal_strlit("LA2");
            reveal_strlit("NA");
            assert("KR"@[0] != "NA"@[0]);
            reveal_strlit("NA1");
            reveal_strlit("JP");
            assert("KR"@[0] != "JP"@[0]);
            reveal_strlit("JP1");
            reveal_strlit("kr");
            reveal_strlit("asia");
            reveal_strlit(".api.riotgames.com");
            reveal_strlit("kr.api.riotgames.com");
            reveal_strlit("asia.api.riotgames.com");
            assert("kr"@ + ".api.riotgames.com"@ =~= "kr.api.riotgames.com"@);
            assert("asia"@ + ".api.riotgames.com"@ =~= "asia.api.riotgames.com"@);
            assert(platform_of_token("KR"@) == Some(Platform::KR));
        },
        crate::types::Region::Jp => {
            reveal_strlit("JP");
            reveal_strlit("BR");
            assert("JP"@[0] != "BR"@[0]);
            reveal_strlit("BR1");
            reveal_strlit("LAN");
            reveal_strlit("LA1");
            reveal_strlit("LAS");
            reveal_strlit("LA2");
            reveal_strlit("NA");
            assert("JP"@[0] != "NA"@[0]);
            reveal_strlit("NA1");
            reveal_strlit("jp1");
            reveal_strlit("asia");
            reveal_strlit(".api.riotgames.com");
            reveal_strlit("jp1.api.riotgames.com");
            reveal_strlit("asia.api.riotgames.com");
            assert("jp1"@ + ".api.riotgames.com"@ =~= "jp1.api.riotgames.com"@);
            assert("asia"@ + ".api.riotgames.com"@ =~= "asia.api.riotgames.com"@);
            assert(platform_of_token("JP"@) == Some(Platform::JP1));
        },
        crate::types::Region::Oce => {
            reveal_strlit("OCE");
            reveal_strlit("BR");
            reveal_strlit("BR1");
            assert("OCE"@[0] != "BR1"@[0]);
            reveal_strlit("LAN");
            assert("OCE"@[0] != "LAN"@[0]);
            reveal_strlit("LA1");
            assert("OCE"@[0] != "LA1"@[0]);
            reveal_strlit("LAS");
            assert("OCE"@[0] != "LAS"@[0]);
            reveal_strlit("LA2");
            assert("OCE"@[0] != "LA2"@[0]);
            reveal_strlit("NA");
            reveal_strlit("NA1");
            assert("OCE"@[0] != "NA1"@[0]);
            reveal_strlit("JP");
            reveal_strlit("JP1");
            assert("OCE"@[0] != "JP1"@[0]);
            reveal_strlit("KR");
            reveal_strlit("EUNE");
            reveal_strlit("EUN");
            assert("OCE"@[0] != "EUN"@[0]);
            reveal_strlit("EUN1");
            reveal_strlit("EUW");
            assert("OCE"@[0] != "EUW"@[0]);
            reveal_strlit("EUW1");
            reveal_strlit("ME");
            reveal_strlit("ME1");
            assert("OCE"@[0] != "ME1"@[0]);
            reveal_strlit("RU");
            reveal_strlit("TR");
            reveal_strlit("TR1");
            assert("OCE"@[0] != "TR1"@[0]);
            reveal_strlit("oc1");
            reveal_strlit("sea");
            reveal_strlit(".api.riotgames.com");
            reveal_strlit("oc1.api.riotgames.com");
            reveal_strlit("sea.api.riotgames.com");
            assert("oc1"@ + ".api.riotgames.com"@ =~= "oc1.api.riotgames.com"@);
            assert("sea"@ + ".api.riotgames.com"@ =~= "sea.api.riotgames.com"@);
            assert(platform_of_token("OCE"@) == Some(Platform::OC1));
        },
        crate::types::Region::Tw => {
            reveal_strlit("TW");
            reveal_strlit("BR");
            assert("TW"@[0] != "BR"@[0]);
            reveal_strlit("BR1");
            reveal_strlit("LAN");
            reveal_strlit("LA1");
            reveal_strlit("LAS");
            reveal_strlit("LA2");
            reveal_strlit("NA");
            assert("TW"@[0] != "NA"@[0]);
            reveal_strlit("NA1");
            reveal_strlit("JP");
            assert("TW"@[0] != "JP"@[0]);
            reveal_strlit("JP1");
            reveal_strlit("KR");
            assert("TW"@[0] != "KR"@[0]);
            reveal_strlit("EUNE");
            reveal_strlit("EUN");
            reveal_strlit("EUN1");
            reveal_strlit("EUW");
            reveal_strlit("EUW1");
            reveal_strlit("ME");
            assert("TW"@[0] != "ME"@[0]);
            reveal_strlit("ME1");
            reveal_strlit("RU");
            assert("TW"@[0] != "RU"@[0]);
            reveal_strlit("TR");
            assert("TW"@[1] != "TR"@[1]);
            reveal_strlit("TR1");
            reveal_strlit("OCE");
            reveal_strlit("OC");
            assert("TW"@[0] != "OC"@[0]);
            reveal_strlit("OC1");
            reveal_strlit("PH");
            assert("TW"@[0] != "PH"@[0]);
            reveal_strlit("PH2");
            reveal_strlit("SG");
            assert("TW"@[0] != "SG"@[0]);
            reveal_strlit("SG2");
            reveal_strlit("TH");
            assert("TW"@[1] != "TH"@[1]);
            reveal_strlit("TH2");
            reveal_strlit("tw2");
            reveal_strlit("sea");
            reveal_strlit(".api.riotgames.com");
            reveal_strlit("tw2.api.riotgames.com");
            reveal_strlit("sea.api.riotgames.com");
            assert("tw2"@ + ".api.riotgames.com"@ =~= "tw2.api.riotgames.com"@);
            assert("sea"@ + ".api.riotgames.com"@ =~= "sea.api.riotgames.com"@);
            assert(platform_of_token("TW"@) == Some(Platform::TW2));
        },
    }
}

/// Match and account calls are routed by geography: the Americas
/// platforms (Brazil, Latin America North and South, North America) to the
/// `americas` cluster, Japan and Korea to `asia`, the European, Middle
/// Eastern, Russian and Turkish platforms to `europe`, and Oceania and
/// South-East Asia (Philippines, Singapore, Thailand, Taiwan, Vietnam) to
/// `sea`.
pub proof fn lemma_platforms_route_by_geography(p: Platform)
    ensures
        platform_region(p) == Region::Americas <==> (p == Platform::BR1 || p == Platform::LA1
            || p == Platform::LA2 || p == Platform::NA1),
        platform_region(p) == Region::Asia <==> (p == Platform::JP1 || p == Platform::KR),
        platform_region(p) == Region::Europe <==> (p == Platform::EUN1 || p == Platform::EUW1
            || p == Platform::ME1 || p == Platform::RU || p == Platform::TR1),
        platform_region(p) == Region::Sea <==> (p == Platform::OC1 || p == Platform::PH2
            || p == Platform::SG2 || p == Platform::TH2 || p == Platform::TW2
            || p == Platform::VN2),
{
}

/// `https://<host>.api.riotgames.com` for a host label.
pub open spec fn api_base_url(host: Seq<char>) -> Seq<char> {
    "https://"@ + host + ".api.riotgames.com"@
}

fn base_url_for(host: &str) -> (r: String)
    ensures
        r@ == api_base_url(host@),
{
    let mut r = string_of("https://");
    push_str(&mut r, host);
    push_str(&mut r, ".api.riotgames.com");
    r
}

impl Platform {
    /// `https://<platform>.api.riotgames.com`.
    pub fn base_url(&self) -> (r: String)
        ensures
            r@ == api_base_url(platform_code(*self)),
    {
        base_url_for(self.as_str())
    }

    /// Host label (`euw1`).
    pub fn as_str(&self) -> (r: &'static str)
        ensures
            r@ == platform_code(*self),
    {
        match self {
            Platform::BR1 => "br1",
            Platform::LA1 => "la1",
            Platform::LA2 => "la2",
            Platform::NA1 => "na1",
            Platform::JP1 => "jp1",
            Platform::KR => "kr",
            Platform::EUN1 => "eun1",
            Platform::EUW1 => "euw1",
            Platform::ME1 => "me1",
            Platform::RU => "ru",
            Platform::TR1 => "tr1",
            Platform::OC1 => "oc1",
            Platform::PH2 => "ph2",
            Platform::SG2 => "sg2",
            Platform::TH2 => "th2",
            Platform::TW2 => "tw2",
            Platform::VN2 => "vn2",
        }
    }

    /// Regional cluster that serves this platform.
    pub fn to_region(self) -> (r: Region)
        ensures
            r == platform_region(self),
    {
        match self {
            Platform::BR1 | Platform::LA1 | Platform::LA2 | Platform::NA1 => Region::Americas,
            Platform::JP1 | Platform::KR => Region::Asia,
            Platform::EUN1 | Platform::EUW1 | Platform::ME1 | Platform::RU | Platform::TR1 => Region::Europe,
            Platform::OC1 | Platform::PH2 | Platform::SG2 | Platform::TH2 | Platform::TW2
            | Platform::VN2 => Region::Sea,
        }
    }

    /// Human-readable name (`EU West`).
    pub fn display_name(&self) -> (r: &'static str)
        ensures
            r@ == platform_display_name(*self),
    {
        match self {
            Platform::BR1 => "Brazil",
            Platform::LA1 => "Latin America North",
            Platform::LA2 => "Latin America South",
            Platform::NA1 => "North America",
            Platform::JP1 => "Japan",
            Platform::KR => "Korea",
            Platform::EUN1 => "EU Nordic & East",
            Platform::EUW1 => "EU West",
            Platform::ME1 => "Middle East",
            Platform::RU => "Russia",
            Platform::TR1 => "Turkey",
            Platform::OC1 => "Oceania",
            Platform::PH2 => "Philippines",
            Platform::SG2 => "Singapore",
            Platform::TH2 => "Thailand",
            Platform::TW2 => "Taiwan",
            Platform::VN2 => "Vietnam",
        }
    }

    /// The label the platform is shown with (its host label upper-cased, `EUW1`).
    pub fn to_display_string(&self) -> (r: String)
        ensures
            r@ == platform_label(*self),
    {
        let s = match self {
            Platform::BR1 => "BR1",
            Platform::LA1 => "LA1",
            Platform::LA2 => "LA2",
            Platform::NA1 => "NA1",
            Platform::JP1 => "JP1",
            Platform::KR => "KR",
            Platform::EUN1 => "EUN1",
            Platform::EUW1 => "EUW1",
            Platform::ME1 => "ME1",
            Platform::RU => "RU",
            Platform::TR1 => "TR1",
            Platform::OC1 => "OC1",
            Platform::PH2 => "PH2",
            Platform::SG2 => "SG2",
            Platform::TH2 => "TH2",
            Platform::TW2 => "TW2",
            Platform::VN2 => "VN2",
        };
        string_of(s)
    }

    /// Parse a platform from user text, case-insensitively (`euw`, `EUW1`,
    /// `oce`, …); anything else is `InvalidRegion` carrying the input.
    pub fn parse(s: &str) -> (r: Result<Platform, AppError>)
        ensures
            platform_parsed(r, s@, unicode_uppercase(s@)),
            is_ascii_text(s@) ==> platform_parsed(r, s@, ascii_upper_text(s@)),
    {
        let up = to_uppercase(s);
        let u = up.as_str();
        if str_eq(u, "BR") || str_eq(u, "BR1") {
            Ok(Platform::BR1)
        } else if str_eq(u, "LAN") || str_eq(u, "LA1") {
            Ok(Platform::LA1)
        } else if str_eq(u, "LAS") || str_eq(u, "LA2") {
            Ok(Platform::LA2)
        } else if str_eq(u, "NA") || str_eq(u, "NA1") {
            Ok(Platform::NA1)
        } else if str_eq(u, "JP") || str_eq(u, "JP1") {
            Ok(Platform::JP1)
        } else if str_eq(u, "KR") {
            Ok(Platform::KR)
        } else if str_eq(u, "EUNE") || str_eq(u, "EUN") || str_eq(u, "EUN1") {
            Ok(Platform::EUN1)
        } else if str_eq(u, "EUW") || str_eq(u, "EUW1") {
            Ok(Platform::EUW1)
        } else if str_eq(u, "ME") || str_eq(u, "ME1") {
            Ok(Platform::ME1)
        } else if str_eq(u, "RU") {
            Ok(Platform::RU)
        } else if str_eq(u, "TR") || str_eq(u, "TR1") {
            Ok(Platform::TR1)
        } else if str_eq(u, "OCE") || str_eq(u, "OC") || str_eq(u, "OC1") {
            Ok(Platform::OC1)
        } else if str_eq(u, "PH") || str_eq(u, "PH2") {
            Ok(Platform::PH2)
        } else if str_eq(u, "SG") || str_eq(u, "SG2") {
            Ok(Platform::SG2)
        } else if str_eq(u, "TH") || str_eq(u, "TH2") {
            Ok(Platform::TH2)
        } else if str_eq(u, "TW") || str_eq(u, "TW2") {
            Ok(Platform::TW2)
        } else if str_eq(u, "VN") || str_eq(u, "VN2") {
            Ok(Platform::VN2)
        } else {
            Err(AppError::InvalidRegion(string_of(s)))
        }
    }
}

impl core::str::FromStr for Platform {
    type Err = AppError;

    fn from_str(s: &str) -> (r: Result<Platform, AppError>)
        ensures
            platform_parsed(r, s@, unicode_uppercase(s@)),
            is_ascii_text(s@) ==> platform_parsed(r, s@, ascii_upper_text(s@)),
    {
        Platform::parse(s)
    }
}

impl Region {
    /// `https://<region>.api.riotgames.com`.
    pub fn base_url(&self) -> (r: String)
        ensures
            r@ == api_base_url(region_code(*self)),
    {
        base_url_for(self.as_str())
    }

    /// Host label (`europe`).
    pub fn as_str(&self) -> (r: &'static str)
        ensures
            r@ == region_code(*self),
    {
        match self {
            Region::Americas => "americas",
            Region::Asia => "asia",
            Region::Europe => "europe",
            Region::Sea => "sea",
        }
    }

    /// The label the region is shown with (its host label).
    pub fn to_display_string(&self) -> (r: String)
        ensures
            r@ == region_code(*self),
    {
        string_of(self.as_str())
    }
}

} // verus!

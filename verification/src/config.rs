//! Settings read from the environment, with their defaults.
use vstd::prelude::*;

use crate::error::AppError;
use crate::parse::{parse_uint, parse_uint_in};
use crate::text::string_of;

verus! {

/// The bot's settings.
#[derive(Debug, Clone)]
pub struct Config {
    pub discord_token: String,
    pub riot_api_key: String,
    pub database_url: String,
    pub polling_interval_secs: u64,
    /// Riot API requests per second; never zero.
    pub riot_rate_limit_per_second: u32,
    pub ddragon_version: String,
}

/// Polling interval: the setting when it reads as a `u64`, else 60 seconds.
pub open spec fn polling_interval_of(v: Option<Seq<char>>) -> u64 {
    match v {
        Some(s) => match parse_uint(s, u64::MAX as int) {
            Some(n) => n as u64,
            None => 60,
        },
        None => 60,
    }
}

/// Rate limit: the setting when it reads as a non-zero `u32`, else 20.
pub open spec fn rate_limit_of(v: Option<Seq<char>>) -> u32 {
    match v {
        Some(s) => match parse_uint(s, u32::MAX as int) {
            Some(n) => if n != 0 {
                n as u32
            } else {
                20
            },
            None => 20,
        },
        None => 20,
    }
}

/// An optional string read by value.
pub open spec fn opt_text(o: Option<String>) -> Option<Seq<char>> {
    match o {
        Some(s) => Some(s@),
        None => None,
    }
}

impl Config {
    /// The settings from the values of `DISCORD_TOKEN`, `RIOT_API_KEY`,
    /// `DATABASE_URL`, `POLLING_INTERVAL_SECS`, `RIOT_RATE_LIMIT_PER_SECOND` and
    /// `DDRAGON_VERSION` (`None` when unset). The two credentials are
    /// required; every other setting has a default.
    pub fn from_values(
        discord_token: Option<String>,
        riot_api_key: Option<String>,
        database_url: Option<String>,
        polling_interval_secs: Option<String>,
        riot_rate_limit_per_second: Option<String>,
        ddragon_version: Option<String>,
    ) -> (r: Result<Config, AppError>)
        ensures
            discord_token is None ==> (r matches Err(AppError::Config(m)) && m@
                == "DISCORD_TOKEN must be set"@),
            discord_token is Some && riot_api_key is None ==> (r matches Err(AppError::Config(m))
                && m@ == "RIOT_API_KEY must be set"@),
            discord_token is Some && riot_api_key is Some ==> (r matches Ok(c) && {
                &&& opt_text(discord_token) == Some(c.discord_token@)
                &&& opt_text(riot_api_key) == Some(c.riot_api_key@)
                &&& c.database_url@ == match database_url {
                    Some(u) => u@,
                    None => "sqlite:tentrackule.db"@,
                }
                &&& c.polling_interval_secs == polling_interval_of(opt_text(polling_interval_secs))
                &&& c.riot_rate_limit_per_second == rate_limit_of(
                    opt_text(riot_rate_limit_per_second),
                )
                &&& c.riot_rate_limit_per_second > 0
                &&& c.ddragon_version@ == match ddragon_version {
                    Some(v) => v@,
                    None => "16.1.1"@,
                }
            }),
    {
        let discord_token = match discord_token {
            Some(t) => t,
            None => return Err(AppError::Config(string_of("DISCORD_TOKEN must be set"))),
        };
        let riot_api_key = match riot_api_key {
            Some(k) => k,
            None => return Err(AppError::Config(string_of("RIOT_API_KEY must be set"))),
        };
        let database_url = match database_url {
            Some(u) => u,
            None => string_of("sqlite:tentrackule.db"),
        };
        let polling_interval_secs = match &polling_interval_secs {
            Some(v) => match parse_uint_in(v.as_str(), u64::MAX) {
                Some(n) => n,
                None => 60,
            },
            None => 60,
        };
        let riot_rate_limit_per_second = match &riot_rate_limit_per_second {
            Some(v) => match parse_uint_in(v.as_str(), 0xffff_ffff) {
                Some(n) => {
                    assert(n <= u32::MAX);
                    if n != 0 {
                        n as u32
                    } else {
                        20
                    }
                },
                None => 20,
            },
            None => 20,
        };
        let ddragon_version = match ddragon_version {
            Some(v) => v,
            None => string_of("16.1.1"),
        };
        Ok(
            Config {
                discord_token,
                riot_api_key,
                database_url,
                polling_interval_secs,
                riot_rate_limit_per_second,
                ddragon_version,
            },
        )
    }
}

} // verus!

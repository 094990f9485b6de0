//! Errors the library reports.
use vstd::prelude::*;

use crate::numfmt::{decimal, push_decimal};
use crate::text::{push_str, string_of};

verus! {

/// Errors raised by the library's own logic.
#[derive(Debug, Clone, PartialEq, Eq)]
pub enum AppError {
    /// A Riot API call answered with a non-success status.
    RiotApi { status: u16, message: String },
    /// No Riot account matches the Riot ID.
    PlayerNotFound { game_name: String, tag_line: String },
    /// The text names no known platform.
    InvalidRegion(String),
    /// A configuration value is missing or malformed.
    Config(String),
    /// The player is not tracked in the server.
    PlayerNotTracked,
    /// The match card could not be produced.
    ImageGeneration { message: String },
}

/// The text of an error.
pub open spec fn error_message(e: AppError) -> Seq<char> {
    match e {
        AppError::RiotApi { status, message } => "Riot API error: "@ + decimal(status as nat) + " - "@
            + message@,
        AppError::PlayerNotFound { game_name, tag_line } => "Player not found: "@ + game_name@ + "#"@
            + tag_line@,
        AppError::InvalidRegion(r) => "Invalid region: "@ + r@,
        AppError::Config(m) => "Configuration error: "@ + m@,
        AppError::PlayerNotTracked => "Player not tracked in this server"@,
        AppError::ImageGeneration { message } => "Image generation error: "@ + message@,
    }
}

impl AppError {
    /// The text of the error (`Player not found: Name#TAG`).
    pub fn message(&self) -> (r: String)
        ensures
            r@ == error_message(*self),
    {
        match self {
            AppError::RiotApi { status, message } => {
                let mut r = string_of("Riot API error: ");
                push_decimal(&mut r, *status as u128);
                push_str(&mut r, " - ");
                push_str(&mut r, message.as_str());
                r
            },
            AppError::PlayerNotFound { game_name, tag_line } => {
                let mut r = string_of("Player not found: ");
                push_str(&mut r, game_name.as_str());
                push_str(&mut r, "#");
                push_str(&mut r, tag_line.as_str());
                r
            },
            AppError::InvalidRegion(region) => {
                let mut r = string_of("Invalid region: ");
                push_str(&mut r, region.as_str());
                r
            },
            AppError::Config(m) => {
                let mut r = string_of("Configuration error: ");
                push_str(&mut r, m.as_str());
                r
            },
            AppError::PlayerNotTracked => string_of("Player not tracked in this server"),
            AppError::ImageGeneration { message } => {
                let mut r = string_of("Image generation error: ");
                push_str(&mut r, message.as_str());
                r
            },
        }
    }
}

} // verus!

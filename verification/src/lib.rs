//! Match tracking and match-card building for League of Legends players.
pub mod config;
pub mod db;
pub mod discord;
pub mod error;
pub mod float;
pub mod numfmt;
pub mod parse;
pub mod poller;
pub mod riot;
pub mod table;
pub mod text;
pub mod types;
pub mod wide;

//! Riot API data: routing values, response payloads and LP bookkeeping.
pub mod endpoints;
pub mod league;
pub mod region;
pub mod types;

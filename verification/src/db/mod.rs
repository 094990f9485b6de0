//! Stored records of tracked players and servers.
pub mod columns;
pub mod models;
pub mod types;

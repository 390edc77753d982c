//! Companion client core for a remote time-tracking service: an OAuth2
//! authorization-code flow with PKCE, a heartbeat-driven session state
//! machine, and a freshness-aware cache policy for analytics queries.
//!
//! The windowing shell, the on-disk persistence engine, the remote HTTP
//! API and the rich-presence broadcaster are external collaborators; this
//! crate holds the decisions and data transformations between them, each
//! with a verified contract.

pub mod auth;
pub mod callback;
pub mod clock;
pub mod config;
pub mod crypto;
pub mod endpoints;
pub mod errors;
pub mod preferences;
pub mod presence;
pub mod random;
pub mod session;
pub mod setup;
pub mod statistics;
pub mod stats_cache;
pub mod strutil;
pub mod urlenc;

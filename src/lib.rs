//! Transactional output configuration: a batch of per-output requests is
//! staged into the registry, handed to a display backend, and either kept
//! (with the protocol heads brought in line) or rolled back exactly.

pub mod config;
pub mod laws;
pub mod registry;
pub mod request;
pub mod transaction;

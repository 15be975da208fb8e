//! Authentication core: verification of externally-issued signed tokens and
//! resolution of each verified token to a durable local identity.
//!
//! The library is deterministic: every network call (key discovery, profile
//! store) happens outside it, and its functions are given the fetched values,
//! the current time and any freshly generated id as plain arguments.

pub mod config;
pub mod errors;
pub mod gate;
pub mod health;
pub mod keyring;
pub mod profiles;
pub mod resolver;
pub mod schema;
pub mod source_key;
pub mod store_model;
pub mod text;
pub mod token;
pub mod user;

//! Credential and token logic of a small authentication backend: password
//! hashing, the per-user vault encoding, signed session tokens, the rows kept
//! for each user and the replies given to registration and login requests.

pub mod data;
pub mod errors;
pub mod vault;
pub mod crypto;
pub mod database;
pub mod routing;

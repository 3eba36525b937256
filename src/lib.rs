//! Authentication core: credential records with salted memory-hard password
//! hashes, single-use email verification tokens, and bearer-token sessions.

pub mod error;
pub mod store;
pub mod hasher;
pub mod token;
pub mod user;
pub mod session;
pub mod auth;

//! Issuance, verification, and single-use rotation of signed, expiring
//! access and refresh tokens, with a shared store that rejects replayed
//! or superseded refresh tokens.

pub mod auth;
pub mod codec;
pub mod errors;
pub mod identity;
pub mod laws;
pub mod lifecycle;
pub mod store;
pub mod resp;
pub mod user;

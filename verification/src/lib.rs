//! Session authentication: a token codec for signed, time-bounded bearer
//! tokens, an active-session registry mapping live tokens to identities,
//! and the authentication gate that every protected request must pass.

pub mod auth;
pub mod errors;
pub mod jwt;
pub mod models;
pub mod registry;
pub mod store;

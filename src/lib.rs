//! Authorization-code grant of an OAuth 2.0 identity provider: validation of
//! authorization requests, the client directory's decisions, login and code
//! issuance, token exchange, and the cache format of pending requests.

pub mod model;
pub mod text;
pub mod errors;
pub mod authorize;
pub mod token;
pub mod login;
pub mod keys;
pub mod directory;
pub mod laws;
pub mod pending;

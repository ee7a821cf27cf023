//! Verified core of an OAuth2 authorization-code login flow.
//!
//! The crate models the two requests of the flow: initiating a login
//! (building the provider authorization URL and storing a signed CSRF
//! cookie) and handling the provider's callback (parsing the redirect
//! query, validating the CSRF secret, and deciding the next step after
//! each network event). All protocol strings are handled as bytes.

pub mod callback;
pub mod config;
pub mod crypto;
pub mod encoding;
pub mod laws;
pub mod login;
pub mod redirect;
pub mod session;
pub mod signing;

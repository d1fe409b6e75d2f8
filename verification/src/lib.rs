//! Signing in to the student portal through its authentication service, and
//! keeping the one session that all later requests use.
//!
//! The library decides; it sends nothing. A sign-in and the taking up of a
//! saved session are each a machine that is handed what came of the last
//! request and says what to send next. Whoever holds the HTTP client sends it.
pub mod api;
pub mod cookies;
pub mod endpoints;
pub mod errors;
pub mod http;
pub mod json;
pub mod login;
pub mod profile;
pub mod restore;
pub mod session;
pub mod store;
pub mod text;
pub mod tokens;

pub use store::AppSettings;

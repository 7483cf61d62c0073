//! Signed, time-bounded identity tokens.
//!
//! A token carries a subject, a privilege flag and a validity window, and is
//! signed with HMAC-SHA256 under a shared secret. [`jwt::generate_token`]
//! issues one; [`jwt::is_valid`] checks the signature and the window of a
//! presented token and hands back the identity it carries.
//!
//! The claims codec, the window arithmetic and the classification of failures
//! are verified. Signing and parsing are done by `jsonwebtoken`, JSON objects
//! are `serde_json`'s, and status codes are `hyper`'s: each of those calls sits
//! behind a small function whose contract is assumed, not proved.

pub mod claims;
pub mod codec;
pub mod config;
pub mod error;
pub mod jwt;
pub mod laws;
pub mod object;
pub mod signing;
pub mod status;
pub mod window;

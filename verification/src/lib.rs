//! Validated request and response values shared by the client, the gateway
//! and the backend services of a forum.
//!
//! A value of one of the types under [`valid`] has passed its rule and keeps
//! satisfying it for as long as it lives.

pub mod admin;
pub mod auth;
pub mod content;
pub mod envelope;
pub mod error;
pub mod external;
pub mod payloads;
pub mod raw;
pub mod valid;

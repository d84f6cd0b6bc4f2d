//! What the gateway exchanges with a client: payloads as they are read off
//! the wire, and the checked payloads that they convert to.

pub mod auth;
pub mod content;

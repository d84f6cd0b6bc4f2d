//! What a user can ask of the auth-service, and what comes back

pub mod requests;
pub mod responses;

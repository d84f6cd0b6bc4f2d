//! What a user can ask of the content-database, and what comes back

pub mod requests;
pub mod responses;

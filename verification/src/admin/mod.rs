//! What an administrator can ask of the service, and what comes back

pub mod requests;
pub mod responses;

//! Requests to the auth-service and its responses, as a client sends and
//! receives them

pub mod requests;
pub mod responses;

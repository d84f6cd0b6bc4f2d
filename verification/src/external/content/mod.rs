//! Requests to the content-database and its responses, raw and checked

pub mod requests;
pub mod responses;

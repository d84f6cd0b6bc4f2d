//! Datatypes with validation
//!
//! These datatypes can be used to compose requests and responses

use vstd::prelude::*;

pub mod convert;
pub mod decimal;
pub mod fields;
pub mod ids;
pub mod rules;
pub mod token;

verus! {

/// The reasons a raw value fails to become a validated value.
#[derive(Clone, Copy, PartialEq, Eq, Structural, Debug)]
pub enum ValidationError {
    InvalidUsername,
    InvalidPassword,
    InvalidId,
    InvalidTitle,
    InvalidDescription,
    InvalidCommentContent,
    InvalidEmail,
    InvalidQuery,
}

} // verus!

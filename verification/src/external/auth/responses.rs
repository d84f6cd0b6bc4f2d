//! The responses a user will get from requests to the auth-service

use vstd::prelude::*;

verus! {

/// All the successful responses to an `AuthRequest`
#[derive(Clone, Copy, PartialEq, Eq, Structural, Debug)]
pub enum AuthSuccess {
    Authenticated,
    Deauthenticated,
    UserRegistered,
}

/// All the unsuccessful responses to an `AuthRequest`
#[derive(Clone, Copy, PartialEq, Eq, Structural, Debug)]
pub enum AuthError {
    /// The client (its cookies) does not have a token
    MissingTokenClient,
    /// The server does not have the provided token
    MissingTokenServer,
    /// The username is invalid
    InvalidUsername,
    /// The password is invalid
    InvalidPassword,
}

} // verus!

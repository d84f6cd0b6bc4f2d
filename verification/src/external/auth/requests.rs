//! The requests a user can send to the auth-service

use vstd::prelude::*;
use crate::payloads::EmptyPayload;

verus! {

/// The requests to the auth-service, as they come off the wire.
#[derive(Clone, Copy, PartialEq, Debug)]
pub enum AuthRequest<'a> {
    Authenticate(AuthRequestPayload<'a>),
    Deauthenticate(EmptyPayload),
    RegisterUser(RegisterUserPayload<'a>),
}

/// The name and the password of the user who signs in, unchecked.
#[derive(Clone, Copy, PartialEq, Debug)]
pub struct AuthRequestPayload<'a> {
    pub raw_username: &'a str,
    pub raw_password: &'a str,
}

/// The name, the password and the email address of the user to register,
/// unchecked.
#[derive(Clone, Copy, PartialEq, Debug)]
pub struct RegisterUserPayload<'a> {
    pub raw_username: &'a str,
    pub raw_password: &'a str,
    pub raw_email: &'a str,
}

} // verus!

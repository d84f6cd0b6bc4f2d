//! Contains useful template payloads

use vstd::prelude::*;
use std::ops::{Deref, DerefMut};
use crate::valid::ids::UserId;

pub use crate::valid::token::{Token, USER_TOKEN_NAME};

verus! {

/// A payload which must be present, but empty
#[derive(Clone, Copy, PartialEq, Eq, Structural, Debug)]
pub struct EmptyPayloadStrict {}

/// A payload which can either be present and empty or not present
pub type EmptyPayload = Option<EmptyPayloadStrict>;

/// Represents a payload that also contains a authorization token
///
/// This payload is generic for both the inner type and the token type, this
/// means that the consumer can provide the types they want. The sole purpose
/// of this structure is to provide a simple way of wrapping an existing type
/// with a token.
///
/// On the wire the token stands beside the fields of the inner payload, in
/// the same object, so the type that is wrapped cannot contain a field named
/// `token`.
#[derive(PartialEq, PartialOrd, Debug)]
pub struct TokenPayload<Inner, Token> {
    token: Token,
    inner: Inner,
}

impl<Inner, Token> TokenPayload<Inner, Token> {
    /// The token that the payload carries.
    pub closed spec fn spec_token(&self) -> Token {
        self.token
    }

    /// The payload that is wrapped.
    pub closed spec fn spec_inner(&self) -> Inner {
        self.inner
    }

    /// Wraps a payload together with a token
    pub fn new(i: Inner, t: Token) -> (payload: TokenPayload<Inner, Token>)
        ensures
            payload.spec_inner() == i,
            payload.spec_token() == t,
    {
        TokenPayload { inner: i, token: t }
    }

    /// Get a reference to the token of the payload
    pub fn token(&self) -> (t: &Token)
        ensures
            *t == self.spec_token(),
    {
        &self.token
    }

    /// Set the token of a payload, and get the token it had
    pub fn set_token(&mut self, t: Token) -> (previous: Token)
        ensures
            previous == old(self).spec_token(),
            final(self).spec_token() == t,
            final(self).spec_inner() == old(self).spec_inner(),
    {
        let mut t = t;
        std::mem::swap(&mut self.token, &mut t);
        t
    }

    /// Turn the payload into its inner type
    pub fn into_inner(self) -> (parts: (Inner, Token))
        ensures
            parts.0 == self.spec_inner(),
            parts.1 == self.spec_token(),
    {
        (self.inner, self.token)
    }
}

impl<Inner, Token> Deref for TokenPayload<Inner, Token> {
    type Target = Inner;

    fn deref(&self) -> (inner: &Inner)
        ensures
            *inner == self.spec_inner(),
    {
        &self.inner
    }
}

impl<Inner, Token> DerefMut for TokenPayload<Inner, Token> {
    fn deref_mut(&mut self) -> (inner: &mut Inner)
        ensures
            *inner == old(self).spec_inner(),
            final(self).spec_inner() == *final(inner),
            final(self).spec_token() == old(self).spec_token(),
    {
        &mut self.inner
    }
}

/// Represents a payload that also contains a user id
///
/// This payload is generic for the inner type, this means that the consumer
/// can provide the type of payload they want. The sole purpose of this
/// structure is to provide a simple way of wrapping an existing payload with a
/// user id.
///
/// On the wire the id stands beside the fields of the inner payload, in the
/// same object, so the type that is wrapped cannot contain a field named
/// `id`.
#[derive(PartialEq, PartialOrd, Debug)]
pub struct UserIdPayload<Inner> {
    id: UserId,
    inner: Inner,
}

impl<Inner> UserIdPayload<Inner> {
    /// The id that the payload carries.
    pub closed spec fn spec_id(&self) -> UserId {
        self.id
    }

    /// The payload that is wrapped.
    pub closed spec fn spec_inner(&self) -> Inner {
        self.inner
    }

    /// Wraps a payload together with the id of a user
    pub fn new(i: Inner, id: UserId) -> (payload: UserIdPayload<Inner>)
        ensures
            payload.spec_inner() == i,
            payload.spec_id() == id,
    {
        UserIdPayload { inner: i, id }
    }

    /// Get a reference to the id of the payload
    pub fn id(&self) -> (id: &UserId)
        ensures
            *id == self.spec_id(),
    {
        &self.id
    }

    /// Set the id of a payload, and get the id it had
    pub fn set_id(&mut self, id: UserId) -> (previous: UserId)
        ensures
            previous == old(self).spec_id(),
            final(self).spec_id() == id,
            final(self).spec_inner() == old(self).spec_inner(),
    {
        let mut id = id;
        std::mem::swap(&mut self.id, &mut id);
        id
    }

    /// Turn the payload into its inner type
    pub fn into_inner(self) -> (parts: (Inner, UserId))
        ensures
            parts.0 == self.spec_inner(),
            parts.1 == self.spec_id(),
    {
        (self.inner, self.id)
    }
}

impl<Inner> Deref for UserIdPayload<Inner> {
    type Target = Inner;

    fn deref(&self) -> (inner: &Inner)
        ensures
            *inner == self.spec_inner(),
    {
        &self.inner
    }
}

impl<Inner> DerefMut for UserIdPayload<Inner> {
    fn deref_mut(&mut self) -> (inner: &mut Inner)
        ensures
            *inner == old(self).spec_inner(),
            final(self).spec_inner() == *final(inner),
            final(self).spec_id() == old(self).spec_id(),
    {
        &mut self.inner
    }
}

} // verus!

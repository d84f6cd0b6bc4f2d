//! The requests a user can send to the auth-service

use vstd::prelude::*;
use crate::auth::responses::Role;
use crate::external::auth::requests::{
    AuthRequest as RawAuthRequest, AuthRequestPayload,
    RegisterUserPayload as RawRegisterUserPayload,
};
use crate::payloads::EmptyPayload;
use crate::valid::convert::{
    failure, first_failure, is_kept, keeps, lemma_required_round_trip, required, same, written,
    FromRaw,
};
use crate::valid::fields::{Email, PlainPassword, Username};
use crate::valid::ids::UserId;
use crate::valid::rules::is_plain;
use crate::valid::ValidationError;

verus! {

/// The requests to the auth-service, with every payload checked.
pub enum AuthRequest {
    Authenticate(AuthPayload),
    Deauthenticate(EmptyPayload),
    RegisterUser(RegisterUserPayload),
}

impl<'a> FromRaw<RawAuthRequest<'a>> for AuthRequest {
    open spec fn refusal(raw: RawAuthRequest<'a>) -> Option<ValidationError> {
        match raw {
            RawAuthRequest::Authenticate(p) => AuthPayload::refusal(p),
            RawAuthRequest::Deauthenticate(_) => None,
            RawAuthRequest::RegisterUser(p) => RegisterUserPayload::refusal(p),
        }
    }

    open spec fn made_of(&self, raw: RawAuthRequest<'a>) -> bool {
        match (*self, raw) {
            (AuthRequest::Authenticate(v), RawAuthRequest::Authenticate(p)) => v.made_of(p),
            (AuthRequest::Deauthenticate(v), RawAuthRequest::Deauthenticate(_)) => v is None,
            (AuthRequest::RegisterUser(v), RawAuthRequest::RegisterUser(p)) => v.made_of(p),
            _ => false,
        }
    }

    fn from_raw(raw: RawAuthRequest<'a>) -> (made: Result<Self, ValidationError>) {
        Self::try_from(raw)
    }
}

impl AuthRequest {
    /// Converts the payload of whichever variant `raw` is, and keeps the
    /// variant. A request without data may come with an empty payload or
    /// with none: both are the same request, which is kept without a
    /// payload.
    pub fn try_from<'a>(raw: RawAuthRequest<'a>) -> (made: Result<Self, ValidationError>)
        ensures
            match made {
                Ok(value) => Self::refusal(raw) is None && value.made_of(raw),
                Err(reason) => Self::refusal(raw) == Some(reason),
            },
    {
        match raw {
            RawAuthRequest::Authenticate(p) => match AuthPayload::try_from(p) {
                Ok(v) => Ok(AuthRequest::Authenticate(v)),
                Err(reason) => Err(reason),
            },
            RawAuthRequest::Deauthenticate(_) => Ok(AuthRequest::Deauthenticate(None)),
            RawAuthRequest::RegisterUser(p) => match RegisterUserPayload::try_from(p) {
                Ok(v) => Ok(AuthRequest::RegisterUser(v)),
                Err(reason) => Err(reason),
            },
        }
    }

    /// A request to sign out is the same request whether it came with an
    /// empty payload or with none.
    pub proof fn lemma_empty_payload_symmetry(self, absent: EmptyPayload, present: EmptyPayload)
        ensures
            self.made_of(RawAuthRequest::Deauthenticate(absent)) <==> self.made_of(
                RawAuthRequest::Deauthenticate(present),
            ),
            Self::refusal(RawAuthRequest::Deauthenticate(absent)) == Self::refusal(
                RawAuthRequest::Deauthenticate(present),
            ),
    {
    }
}

/// The name and the password of the user who signs in, every field of which has passed its rule.
#[derive(PartialEq)]
pub struct AuthPayload {
    pub username: Username,
    pub password: PlainPassword,
}

impl<'a> FromRaw<AuthRequestPayload<'a>> for AuthPayload {
    open spec fn refusal(raw: AuthRequestPayload<'a>) -> Option<ValidationError> {
        first_failure(
            failure::<Username>(raw.raw_username@),
            failure::<PlainPassword>(raw.raw_password@),
        )
    }

    open spec fn made_of(&self, raw: AuthRequestPayload<'a>) -> bool {
        &&& keeps(self.username, raw.raw_username)
        &&& keeps(self.password, raw.raw_password)
    }

    fn from_raw(raw: AuthRequestPayload<'a>) -> (made: Result<Self, ValidationError>) {
        Self::try_from(raw)
    }
}

impl AuthPayload {
    /// Converts the raw payload field by field, in the order of declaration:
    /// the first field that fails its rule gives the reason.
    pub fn try_from<'a>(raw: AuthRequestPayload<'a>) -> (made: Result<Self, ValidationError>)
        ensures
            match made {
                Ok(value) => Self::refusal(raw) is None && value.made_of(raw),
                Err(reason) => Self::refusal(raw) == Some(reason),
            },
    {
        let username = match required::<Username>(raw.raw_username) {
            Ok(value) => value,
            Err(reason) => {
                return Err(reason);
            },
        };
        let password = match required::<PlainPassword>(raw.raw_password) {
            Ok(value) => value,
            Err(reason) => {
                return Err(reason);
            },
        };
        Ok(AuthPayload { username, password })
    }

    /// Whether every text in the payload is one that passed its rule.
    pub open spec fn well_formed(&self) -> bool {
        &&& is_kept::<Username>(self.username@)
        &&& is_kept::<PlainPassword>(self.password@)
    }

    /// Whether no text in the payload holds a special character.
    pub open spec fn plain(&self) -> bool {
        &&& is_plain(self.username@)
        &&& is_plain(self.password@)
    }

    /// Whether `raw` is what the payload is written as on the wire.
    pub open spec fn written_as<'a>(&self, raw: AuthRequestPayload<'a>) -> bool {
        &&& written(self.username, raw.raw_username)
        &&& written(self.password, raw.raw_password)
    }

    /// Whether the two payloads hold the same in every field.
    pub open spec fn same_as(&self, other: Self) -> bool {
        &&& same(self.username, other.username)
        &&& same(self.password, other.password)
    }

    /// A payload without special characters that is written on the wire and
    /// converted again is not refused, and comes out the same.
    pub proof fn lemma_round_trip<'a>(self, raw: AuthRequestPayload<'a>, again: Self)
        requires
            self.well_formed(),
            self.plain(),
            self.written_as(raw),
            again.made_of(raw),
        ensures
            Self::refusal(raw) is None,
            self.same_as(again),
    {
        lemma_required_round_trip::<Username>(self.username, raw.raw_username, again.username);
        lemma_required_round_trip::<PlainPassword>(self.password, raw.raw_password, again.password);
    }
}

/// The name, the password and the email address of the user to register, every
/// field of which has passed its rule.
#[derive(PartialEq)]
pub struct RegisterUserPayload {
    pub username: Username,
    pub password: PlainPassword,
    pub email: Email,
}

impl<'a> FromRaw<RawRegisterUserPayload<'a>> for RegisterUserPayload {
    open spec fn refusal(raw: RawRegisterUserPayload<'a>) -> Option<ValidationError> {
        first_failure(
            failure::<Username>(raw.raw_username@),
            first_failure(
                failure::<PlainPassword>(raw.raw_password@),
                failure::<Email>(raw.raw_email@),
            ),
        )
    }

    open spec fn made_of(&self, raw: RawRegisterUserPayload<'a>) -> bool {
        &&& keeps(self.username, raw.raw_username)
        &&& keeps(self.password, raw.raw_password)
        &&& keeps(self.email, raw.raw_email)
    }

    fn from_raw(raw: RawRegisterUserPayload<'a>) -> (made: Result<Self, ValidationError>) {
        Self::try_from(raw)
    }
}

impl RegisterUserPayload {
    /// Converts the raw payload field by field, in the order of declaration:
    /// the first field that fails its rule gives the reason.
    pub fn try_from<'a>(raw: RawRegisterUserPayload<'a>) -> (made: Result<Self, ValidationError>)
        ensures
            match made {
                Ok(value) => Self::refusal(raw) is None && value.made_of(raw),
                Err(reason) => Self::refusal(raw) == Some(reason),
            },
    {
        let username = match required::<Username>(raw.raw_username) {
            Ok(value) => value,
            Err(reason) => {
                return Err(reason);
            },
        };
        let password = match required::<PlainPassword>(raw.raw_password) {
            Ok(value) => value,
            Err(reason) => {
                return Err(reason);
            },
        };
        let email = match required::<Email>(raw.raw_email) {
            Ok(value) => value,
            Err(reason) => {
                return Err(reason);
            },
        };
        Ok(RegisterUserPayload { username, password, email })
    }

    /// Whether every text in the payload is one that passed its rule.
    pub open spec fn well_formed(&self) -> bool {
        &&& is_kept::<Username>(self.username@)
        &&& is_kept::<PlainPassword>(self.password@)
        &&& is_kept::<Email>(self.email@)
    }

    /// Whether no text in the payload holds a special character.
    pub open spec fn plain(&self) -> bool {
        &&& is_plain(self.username@)
        &&& is_plain(self.password@)
        &&& is_plain(self.email@)
    }

    /// Whether `raw` is what the payload is written as on the wire.
    pub open spec fn written_as<'a>(&self, raw: RawRegisterUserPayload<'a>) -> bool {
        &&& written(self.username, raw.raw_username)
        &&& written(self.password, raw.raw_password)
        &&& written(self.email, raw.raw_email)
    }

    /// Whether the two payloads hold the same in every field.
    pub open spec fn same_as(&self, other: Self) -> bool {
        &&& same(self.username, other.username)
        &&& same(self.password, other.password)
        &&& same(self.email, other.email)
    }

    /// A payload without special characters that is written on the wire and
    /// converted again is not refused, and comes out the same.
    pub proof fn lemma_round_trip<'a>(self, raw: RawRegisterUserPayload<'a>, again: Self)
        requires
            self.well_formed(),
            self.plain(),
            self.written_as(raw),
            again.made_of(raw),
        ensures
            Self::refusal(raw) is None,
            self.same_as(again),
    {
        lemma_required_round_trip::<Username>(self.username, raw.raw_username, again.username);
        lemma_required_round_trip::<PlainPassword>(self.password, raw.raw_password, again.password);
        lemma_required_round_trip::<Email>(self.email, raw.raw_email, again.email);
    }
}

/// The role that a user is to have, as it comes off the wire: nothing in it has been checked.
#[derive(Clone, Copy, PartialEq, Debug)]
pub struct RawSetUserRolePayload<'a> {
    pub id: u32,
    pub role: &'a str,
}

/// The role that a user is to have, every field of which has passed its rule.
#[derive(PartialEq, Debug)]
pub struct SetUserRolePayload {
    pub id: UserId,
    pub role: Role,
}

impl<'a> FromRaw<RawSetUserRolePayload<'a>> for SetUserRolePayload {
    open spec fn refusal(raw: RawSetUserRolePayload<'a>) -> Option<ValidationError> {
        None
    }

    open spec fn made_of(&self, raw: RawSetUserRolePayload<'a>) -> bool {
        &&& self.id@ == raw.id
        &&& self.role == Role::named(raw.role@)
    }

    fn from_raw(raw: RawSetUserRolePayload<'a>) -> (made: Result<Self, ValidationError>) {
        Self::try_from(raw)
    }
}

impl SetUserRolePayload {
    /// Converts the raw payload field by field, in the order of declaration:
    /// the first field that fails its rule gives the reason.
    /// No field of it is held to a rule, so the conversion always succeeds.
    pub fn try_from<'a>(raw: RawSetUserRolePayload<'a>) -> (made: Result<Self, ValidationError>)
        ensures
            match made {
                Ok(value) => Self::refusal(raw) is None && value.made_of(raw),
                Err(reason) => Self::refusal(raw) == Some(reason),
            },
    {
        let id = UserId::from(raw.id);
        let role = Role::from(raw.role);
        Ok(SetUserRolePayload { id, role })
    }

    /// Whether every text in the payload is one that passed its rule.
    pub open spec fn well_formed(&self) -> bool {
        true
    }

    /// Whether no text in the payload holds a special character.
    pub open spec fn plain(&self) -> bool {
        true
    }

    /// Whether `raw` is what the payload is written as on the wire.
    pub open spec fn written_as<'a>(&self, raw: RawSetUserRolePayload<'a>) -> bool {
        &&& raw.id == self.id@
        &&& raw.role@ == self.role.name()
    }

    /// Whether the two payloads hold the same in every field.
    pub open spec fn same_as(&self, other: Self) -> bool {
        &&& self.id@ == other.id@
        &&& self.role == other.role
    }

    /// A payload without special characters that is written on the wire and
    /// converted again is not refused, and comes out the same.
    pub proof fn lemma_round_trip<'a>(self, raw: RawSetUserRolePayload<'a>, again: Self)
        requires
            self.well_formed(),
            self.plain(),
            self.written_as(raw),
            again.made_of(raw),
        ensures
            Self::refusal(raw) is None,
            self.same_as(again),
    {
        self.role.lemma_name_round_trip();
    }
}

} // verus!

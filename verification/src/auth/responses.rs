//! The responses a user will get from requests to the auth-service

use vstd::prelude::*;

verus! {

/// All the successful responses to an `AuthRequest`
#[derive(Clone, Copy, PartialEq, Eq, Structural, Debug)]
pub enum AuthSuccess {
    Authenticated,
    Deauthenticated,
    UserRegistered,
}

/// All the unsuccessful responses to an `AuthRequest`
#[derive(Clone, Copy, PartialEq, Eq, Structural, Debug)]
pub enum AuthError {
    InvalidToken,
    InvalidUsername,
    InvalidPassword,
    InvalidCredentials,
    ExistingUser,
    InternalServerError,
}

/// What a user is allowed to do. The variants stand in rising order of
/// privilege.
#[derive(Clone, Copy, Eq, PartialEq, Ord, PartialOrd, Debug, Structural)]
pub enum Role {
    User,
    Moderator,
    Admin,
}

impl Role {
    /// The number that a role is stored as: a higher number allows more.
    pub open spec fn spec_level(self) -> u8 {
        match self {
            Role::Admin => 30,
            Role::Moderator => 20,
            Role::User => 10,
        }
    }

    /// The number that a role is stored as.
    pub fn level(self) -> (n: u8)
        ensures
            n == self.spec_level(),
    {
        match self {
            Role::Admin => 30,
            Role::Moderator => 20,
            Role::User => 10,
        }
    }

    /// The name of a role on the wire.
    pub open spec fn name(self) -> Seq<char> {
        match self {
            Role::Admin => "admin"@,
            Role::Moderator => "moderator"@,
            Role::User => "user"@,
        }
    }

    /// The role that a text names. A text that names no role stands for the
    /// role with the least privilege: reading a role never fails.
    pub open spec fn named(text: Seq<char>) -> Role {
        if text == "admin"@ {
            Role::Admin
        } else if text == "moderator"@ {
            Role::Moderator
        } else {
            Role::User
        }
    }

    /// Reads a role from its name. Reading never fails: a text that names
    /// no role gives `Role::User`.
    pub fn from(s: &str) -> (role: Self)
        ensures
            role == Role::named(s@),
    {
        let text = s.to_owned();
        if text == "admin".to_owned() {
            Role::Admin
        } else if text == "moderator".to_owned() {
            Role::Moderator
        } else {
            Role::User
        }
    }

    /// The name of the role, as it is written on the wire.
    pub fn into(self) -> (text: String)
        ensures
            text@ == self.name(),
    {
        match self {
            Role::Admin => "admin".to_owned(),
            Role::Moderator => "moderator".to_owned(),
            Role::User => "user".to_owned(),
        }
    }

    /// A role that is written and read back is the same role.
    pub proof fn lemma_name_round_trip(self)
        ensures
            Role::named(self.name()) == self,
    {
        reveal_strlit("admin");
        reveal_strlit("moderator");
        reveal_strlit("user");
        assert("admin"@.len() == 5);
        assert("moderator"@.len() == 9);
        assert("user"@.len() == 4);
    }

    /// Whatever the text, the role that is read allows no more than the
    /// text names: only the two names of higher roles give them.
    pub proof fn lemma_unknown_is_user(text: Seq<char>)
        requires
            text != "admin"@,
            text != "moderator"@,
        ensures
            Role::named(text) == Role::User,
    {
    }
}

} // verus!

//! The token that stands for a signed-in user

use vstd::prelude::*;
use crate::error::ResponseError;

verus! {

/// The name of the cookie that carries the token.
pub const USER_TOKEN_NAME: &'static str = "user_token";

/// A token as a client handed it in. Its text is not checked: that it is
/// there is all that is asked.
pub struct Token(String);

impl View for Token {
    type V = Seq<char>;

    closed spec fn view(&self) -> Seq<char> {
        self.0@
    }
}

impl Token {
    /// Wraps the text of a token.
    pub fn new(token: String) -> (made: Self)
        ensures
            made@ == token@,
    {
        Token(token)
    }

    /// The text of the token.
    pub fn as_ref(&self) -> (text: &str)
        ensures
            text@ == self@,
    {
        self.0.as_str()
    }

    /// Unwraps the text, as it is written into the cookie named
    /// `USER_TOKEN_NAME`.
    pub fn into_inner(self) -> (text: String)
        ensures
            text@ == self@,
    {
        self.0
    }

    /// What a cookie jar yields for `cookie`, the value of the private cookie
    /// named `USER_TOKEN_NAME`, or `None` where the request has no such cookie.
    pub open spec fn request_outcome(cookie: Option<String>) -> Result<Seq<char>, ResponseError> {
        match cookie {
            Some(value) => Ok(value@),
            None => Err(ResponseError::Unauthenticated),
        }
    }

    /// Takes the token of a request from the value of its token cookie. A
    /// request without the cookie is not authenticated, which is another
    /// matter than an input that fails a rule.
    pub fn from_request(cookie: Option<String>) -> (made: Result<Self, ResponseError>)
        ensures
            match made {
                Ok(token) => Self::request_outcome(cookie) == Ok::<Seq<char>, ResponseError>(
                    token@,
                ),
                Err(reason) => Self::request_outcome(cookie) == Err::<Seq<char>, ResponseError>(
                    reason,
                ),
            },
    {
        match cookie {
            Some(value) => Ok(Token::new(value)),
            None => Err(ResponseError::Unauthenticated),
        }
    }
}

} // verus!

//! A collection of all common errors

use vstd::prelude::*;
use crate::admin::responses::AdminError;
use crate::auth::responses::AuthError;
use crate::content::responses::ContentError;
use crate::external::auth::responses::AuthError as ClientAuthError;
use crate::external::content::responses::ContentRequestError;
use crate::valid::ValidationError;

verus! {

/// Every way in which a request can fail, whichever service it went to.
#[derive(Clone, Copy, PartialEq, Eq, Structural, Debug)]
pub enum ResponseError {
    /// An error specific to auth requests
    AuthRequestError(AuthError),
    /// An error specific to content requests
    ContentRequestError(ContentError),
    /// An error specific to admin requests
    AdminRequestError(AdminError),
    /// The user is not authenticated with the service
    Unauthenticated,
    /// The user is not authorized to perform the action
    Unauthorized,
    /// An internal server error occured
    InternalServerError,
}

/// The result of a request
pub type ResponseResult<T> = Result<T, ResponseError>;

/// How a call to another service failed: with an error that the service
/// itself gave, or in any other way (the transport, a deadline, a server
/// that went away).
#[derive(Clone, Copy, PartialEq, Eq, Structural, Debug)]
pub enum RpcError<E> {
    App(E),
    Other,
}

impl ContentError {
    /// The content error that a failed call stands for: the service's own
    /// error, and an internal server error for every other failure.
    pub open spec fn of_rpc(e: RpcError<ContentError>) -> ContentError {
        match e {
            RpcError::App(reason) => reason,
            RpcError::Other => ContentError::InternalServerError,
        }
    }
}

impl AuthError {
    /// The auth error that a failed call stands for: the service's own
    /// error, and an internal server error for every other failure.
    pub open spec fn of_rpc(e: RpcError<AuthError>) -> AuthError {
        match e {
            RpcError::App(reason) => reason,
            RpcError::Other => AuthError::InternalServerError,
        }
    }
}

impl ResponseError {
    /// The response error for a failed call to the content service: an
    /// internal server error is reported as such, and not as the content
    /// service's.
    pub open spec fn of_content_rpc(e: RpcError<ContentError>) -> ResponseError {
        match ContentError::of_rpc(e) {
            ContentError::InternalServerError => ResponseError::InternalServerError,
            reason => ResponseError::ContentRequestError(reason),
        }
    }

    /// The response error for a failed call to the auth service: an
    /// internal server error is reported as such, and not as the auth
    /// service's.
    pub open spec fn of_auth_rpc(e: RpcError<AuthError>) -> ResponseError {
        match AuthError::of_rpc(e) {
            AuthError::InternalServerError => ResponseError::InternalServerError,
            reason => ResponseError::AuthRequestError(reason),
        }
    }

    /// A failed call never reaches the user as an internal server error of
    /// one service: that reason is always the common one.
    pub proof fn lemma_internal_error_is_common(
        content: RpcError<ContentError>,
        auth: RpcError<AuthError>,
    )
        ensures
            ResponseError::of_content_rpc(content) != ResponseError::ContentRequestError(
                ContentError::InternalServerError,
            ),
            ResponseError::of_auth_rpc(auth) != ResponseError::AuthRequestError(
                AuthError::InternalServerError,
            ),
    {
    }
}

impl From<RpcError<ContentError>> for ContentError {
    fn from(e: RpcError<ContentError>) -> (reason: ContentError)
        ensures
            reason == ContentError::of_rpc(e),
    {
        match e {
            RpcError::App(ee) => ee,
            RpcError::Other => ContentError::InternalServerError,
        }
    }
}

impl vstd::std_specs::convert::FromSpecImpl<RpcError<ContentError>> for ContentError {
    open spec fn obeys_from_spec() -> bool {
        true
    }

    open spec fn from_spec(e: RpcError<ContentError>) -> Self {
        ContentError::of_rpc(e)
    }
}

impl From<RpcError<AuthError>> for AuthError {
    fn from(e: RpcError<AuthError>) -> (reason: AuthError)
        ensures
            reason == AuthError::of_rpc(e),
    {
        match e {
            RpcError::App(ee) => ee,
            RpcError::Other => AuthError::InternalServerError,
        }
    }
}

impl vstd::std_specs::convert::FromSpecImpl<RpcError<AuthError>> for AuthError {
    open spec fn obeys_from_spec() -> bool {
        true
    }

    open spec fn from_spec(e: RpcError<AuthError>) -> Self {
        AuthError::of_rpc(e)
    }
}

impl From<RpcError<ContentError>> for ResponseError {
    fn from(e: RpcError<ContentError>) -> (reason: ResponseError)
        ensures
            reason == ResponseError::of_content_rpc(e),
    {
        let ee: ContentError = ContentError::from(e);
        match ee {
            ContentError::InternalServerError => ResponseError::InternalServerError,
            eee => ResponseError::ContentRequestError(eee),
        }
    }
}

impl vstd::std_specs::convert::FromSpecImpl<RpcError<ContentError>> for ResponseError {
    open spec fn obeys_from_spec() -> bool {
        true
    }

    open spec fn from_spec(e: RpcError<ContentError>) -> Self {
        ResponseError::of_content_rpc(e)
    }
}

impl From<RpcError<AuthError>> for ResponseError {
    fn from(e: RpcError<AuthError>) -> (reason: ResponseError)
        ensures
            reason == ResponseError::of_auth_rpc(e),
    {
        let ee: AuthError = AuthError::from(e);
        match ee {
            AuthError::InternalServerError => ResponseError::InternalServerError,
            eee => ResponseError::AuthRequestError(eee),
        }
    }
}

impl vstd::std_specs::convert::FromSpecImpl<RpcError<AuthError>> for ResponseError {
    open spec fn obeys_from_spec() -> bool {
        true
    }

    open spec fn from_spec(e: RpcError<AuthError>) -> Self {
        ResponseError::of_auth_rpc(e)
    }
}

impl From<AuthError> for ResponseError {
    fn from(e: AuthError) -> (reason: Self)
        ensures
            reason == ResponseError::AuthRequestError(e),
    {
        ResponseError::AuthRequestError(e)
    }
}

impl vstd::std_specs::convert::FromSpecImpl<AuthError> for ResponseError {
    open spec fn obeys_from_spec() -> bool {
        true
    }

    open spec fn from_spec(e: AuthError) -> Self {
        ResponseError::AuthRequestError(e)
    }
}

impl From<ContentError> for ResponseError {
    fn from(e: ContentError) -> (reason: Self)
        ensures
            reason == ResponseError::ContentRequestError(e),
    {
        ResponseError::ContentRequestError(e)
    }
}

impl vstd::std_specs::convert::FromSpecImpl<ContentError> for ResponseError {
    open spec fn obeys_from_spec() -> bool {
        true
    }

    open spec fn from_spec(e: ContentError) -> Self {
        ResponseError::ContentRequestError(e)
    }
}

impl From<AdminError> for ResponseError {
    fn from(e: AdminError) -> (reason: Self)
        ensures
            reason == ResponseError::AdminRequestError(e),
    {
        ResponseError::AdminRequestError(e)
    }
}

impl vstd::std_specs::convert::FromSpecImpl<AdminError> for ResponseError {
    open spec fn obeys_from_spec() -> bool {
        true
    }

    open spec fn from_spec(e: AdminError) -> Self {
        ResponseError::AdminRequestError(e)
    }
}

/// An error that can be shown to a user.
pub trait Reason {
    /// The text shown for the error.
    spec fn message_text(&self) -> Seq<char>;

    /// A stable description of the error, which reveals nothing of how the
    /// service works inside.
    fn message(&self) -> (text: &'static str)
        ensures
            text@ == self.message_text(),
    ;
}

impl Reason for AuthError {
    open spec fn message_text(&self) -> Seq<char> {
        match self {
            AuthError::InvalidToken => "invalid token"@,
            AuthError::InvalidUsername => "invalid username"@,
            AuthError::InvalidPassword => "invalid password"@,
            AuthError::InvalidCredentials => "username or password is invalid"@,
            AuthError::ExistingUser => "user already exists"@,
            AuthError::InternalServerError => "internal server error"@,
        }
    }

    fn message(&self) -> (text: &'static str) {
        match self {
            AuthError::InvalidToken => "invalid token",
            AuthError::InvalidUsername => "invalid username",
            AuthError::InvalidPassword => "invalid password",
            AuthError::InvalidCredentials => "username or password is invalid",
            AuthError::ExistingUser => "user already exists",
            AuthError::InternalServerError => "internal server error",
        }
    }
}

impl Reason for ContentError {
    open spec fn message_text(&self) -> Seq<char> {
        match self {
            ContentError::MissingContent => "content was not found"@,
            ContentError::HiddenContent => "content is hidden"@,
            ContentError::InternalServerError => "internal server error"@,
            ContentError::InvalidSearchQuery => "invalid search query"@,
            ContentError::InvalidId => "invalid id"@,
            ContentError::InvalidContent => "invalid content"@,
        }
    }

    fn message(&self) -> (text: &'static str) {
        match self {
            ContentError::MissingContent => "content was not found",
            ContentError::HiddenContent => "content is hidden",
            ContentError::InternalServerError => "internal server error",
            ContentError::InvalidSearchQuery => "invalid search query",
            ContentError::InvalidId => "invalid id",
            ContentError::InvalidContent => "invalid content",
        }
    }
}

impl Reason for AdminError {
    open spec fn message_text(&self) -> Seq<char> {
        match self {
            AdminError::InternalError => "internal occured error"@,
        }
    }

    fn message(&self) -> (text: &'static str) {
        match self {
            AdminError::InternalError => "internal occured error",
        }
    }
}

impl Reason for ResponseError {
    open spec fn message_text(&self) -> Seq<char> {
        match self {
            ResponseError::AuthRequestError(_) => "error specific to auth requests"@,
            ResponseError::ContentRequestError(_) => "error specific to content requests"@,
            ResponseError::AdminRequestError(_) => "error specific to admin requests"@,
            ResponseError::Unauthenticated => "user is not authenticated with the service"@,
            ResponseError::Unauthorized => "user is not authorized to perform action"@,
            ResponseError::InternalServerError => "internal server error occured"@,
        }
    }

    fn message(&self) -> (text: &'static str) {
        match self {
            ResponseError::AuthRequestError(_) => "error specific to auth requests",
            ResponseError::ContentRequestError(_) => "error specific to content requests",
            ResponseError::AdminRequestError(_) => "error specific to admin requests",
            ResponseError::Unauthenticated => "user is not authenticated with the service",
            ResponseError::Unauthorized => "user is not authorized to perform action",
            ResponseError::InternalServerError => "internal server error occured",
        }
    }
}

impl Reason for ValidationError {
    open spec fn message_text(&self) -> Seq<char> {
        match self {
            ValidationError::InvalidUsername => "invalid (badly formatted) username"@,
            ValidationError::InvalidPassword => "invalid (badly formatted) password"@,
            ValidationError::InvalidId => "invalid (badly formatted) id"@,
            ValidationError::InvalidTitle => "invalid (badly formatted) title"@,
            ValidationError::InvalidDescription => "invalid (badly formatted) description"@,
            ValidationError::InvalidCommentContent => "invalid (badly formatted) comment"@,
            ValidationError::InvalidEmail => "invalid (badly formatted) email"@,
            ValidationError::InvalidQuery => "invalid (badly formatted) search query"@,
        }
    }

    fn message(&self) -> (text: &'static str) {
        match self {
            ValidationError::InvalidUsername => "invalid (badly formatted) username",
            ValidationError::InvalidPassword => "invalid (badly formatted) password",
            ValidationError::InvalidId => "invalid (badly formatted) id",
            ValidationError::InvalidTitle => "invalid (badly formatted) title",
            ValidationError::InvalidDescription => "invalid (badly formatted) description",
            ValidationError::InvalidCommentContent => "invalid (badly formatted) comment",
            ValidationError::InvalidEmail => "invalid (badly formatted) email",
            ValidationError::InvalidQuery => "invalid (badly formatted) search query",
        }
    }
}

impl Reason for ClientAuthError {
    open spec fn message_text(&self) -> Seq<char> {
        match self {
            ClientAuthError::MissingTokenClient => "client (cookies) does not have token"@,
            ClientAuthError::MissingTokenServer => "server does not have provided token"@,
            ClientAuthError::InvalidUsername => "invalid username"@,
            ClientAuthError::InvalidPassword => "invalid password"@,
        }
    }

    fn message(&self) -> (text: &'static str) {
        match self {
            ClientAuthError::MissingTokenClient => "client (cookies) does not have token",
            ClientAuthError::MissingTokenServer => "server does not have provided token",
            ClientAuthError::InvalidUsername => "invalid username",
            ClientAuthError::InvalidPassword => "invalid password",
        }
    }
}

impl Reason for ContentRequestError {
    open spec fn message_text(&self) -> Seq<char> {
        match self {
            ContentRequestError::Hidden => "content is hidden"@,
            ContentRequestError::InvalidId => "passed invalid id"@,
            ContentRequestError::MissingToken => "token missing from cookies"@,
            ContentRequestError::InvalidToken => "passed invalid token"@,
            ContentRequestError::InvalidQuery => "passed invalid query"@,
        }
    }

    fn message(&self) -> (text: &'static str) {
        match self {
            ContentRequestError::Hidden => "content is hidden",
            ContentRequestError::InvalidId => "passed invalid id",
            ContentRequestError::MissingToken => "token missing from cookies",
            ContentRequestError::InvalidToken => "passed invalid token",
            ContentRequestError::InvalidQuery => "passed invalid query",
        }
    }
}

} // verus!

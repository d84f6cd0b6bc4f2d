use datatypes::admin::responses::AdminError;
use datatypes::auth::responses::AuthError;
use datatypes::content::responses::ContentError;
use datatypes::error::{Reason, ResponseError, RpcError};
use datatypes::valid::ValidationError;

#[test]
fn a_service_error_is_wrapped_under_its_service() {
    assert_eq!(
        ResponseError::from(AuthError::InvalidToken),
        ResponseError::AuthRequestError(AuthError::InvalidToken)
    );
    assert_eq!(
        ResponseError::from(ContentError::HiddenContent),
        ResponseError::ContentRequestError(ContentError::HiddenContent)
    );
    assert_eq!(
        ResponseError::from(AdminError::InternalError),
        ResponseError::AdminRequestError(AdminError::InternalError)
    );
    assert_eq!(
        ResponseError::from(AuthError::InternalServerError),
        ResponseError::AuthRequestError(AuthError::InternalServerError)
    );
}

#[test]
fn a_failed_call_stands_for_the_error_of_the_service() {
    assert_eq!(
        ContentError::from(RpcError::App(ContentError::MissingContent)),
        ContentError::MissingContent
    );
    assert_eq!(
        ContentError::from(RpcError::Other),
        ContentError::InternalServerError
    );
    assert_eq!(
        AuthError::from(RpcError::App(AuthError::ExistingUser)),
        AuthError::ExistingUser
    );
    assert_eq!(
        AuthError::from(RpcError::Other),
        AuthError::InternalServerError
    );
}

#[test]
fn an_internal_error_of_a_service_is_the_common_one() {
    assert_eq!(
        ResponseError::from(RpcError::App(ContentError::InternalServerError)),
        ResponseError::InternalServerError
    );
    assert_eq!(
        ResponseError::from(RpcError::<ContentError>::Other),
        ResponseError::InternalServerError
    );
    assert_eq!(
        ResponseError::from(RpcError::App(ContentError::InvalidId)),
        ResponseError::ContentRequestError(ContentError::InvalidId)
    );
    assert_eq!(
        ResponseError::from(RpcError::App(AuthError::InternalServerError)),
        ResponseError::InternalServerError
    );
    assert_eq!(
        ResponseError::from(RpcError::<AuthError>::Other),
        ResponseError::InternalServerError
    );
    assert_eq!(
        ResponseError::from(RpcError::App(AuthError::InvalidCredentials)),
        ResponseError::AuthRequestError(AuthError::InvalidCredentials)
    );
}

#[test]
fn every_reason_has_its_own_message() {
    let all = vec![
        (ValidationError::InvalidUsername, "invalid (badly formatted) username"),
        (ValidationError::InvalidPassword, "invalid (badly formatted) password"),
        (ValidationError::InvalidId, "invalid (badly formatted) id"),
        (ValidationError::InvalidTitle, "invalid (badly formatted) title"),
        (ValidationError::InvalidDescription, "invalid (badly formatted) description"),
        (ValidationError::InvalidCommentContent, "invalid (badly formatted) comment"),
        (ValidationError::InvalidEmail, "invalid (badly formatted) email"),
        (ValidationError::InvalidQuery, "invalid (badly formatted) search query"),
    ];
    for (reason, message) in all {
        assert_eq!(reason.message(), message);
    }
}

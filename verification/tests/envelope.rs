use datatypes::admin::responses::{AdminError, AdminSuccess};
use datatypes::auth::responses::{AuthError, AuthSuccess};
use datatypes::content::requests::{RawContentRequest, RawGetHiddenPayload, RawHideThreadPayload};
use datatypes::content::responses::ContentError;
use datatypes::envelope::{texts_equal, Tagged, PAYLOAD_KEY, TYPE_KEY};
use datatypes::error::ResponseError;
use datatypes::external::auth::requests::AuthRequest;
use datatypes::external::content::requests::{
    ContentRequests, RawAddCategoryPayload, RawContentRequests, RawUploadAvatarPayload,
};
use datatypes::external::content::responses::ContentRequestError;
use datatypes::payloads::EmptyPayloadStrict;
use datatypes::valid::ValidationError;

#[test]
fn an_envelope_has_two_keys() {
    assert_eq!(TYPE_KEY, "type");
    assert_eq!(PAYLOAD_KEY, "payload");
}

#[test]
fn a_variant_is_named_in_upper_case() {
    assert_eq!(AuthRequest::Deauthenticate(None).tag(), "DEAUTHENTICATE");
    assert_eq!(
        AuthRequest::Deauthenticate(Some(EmptyPayloadStrict {})).tag(),
        "DEAUTHENTICATE"
    );
    assert_eq!(
        RawContentRequests::AddCategory(RawAddCategoryPayload {
            title: "",
            description: ""
        })
        .tag(),
        "ADD_CATEGORY"
    );
    assert_eq!(
        RawContentRequests::UploadAvatar(RawUploadAvatarPayload {
            user_id: 1,
            avatar: ""
        })
        .tag(),
        "UPLOAD_AVATAR"
    );
    assert_eq!(AuthSuccess::UserRegistered.tag(), "USER_REGISTERED");
    assert_eq!(AdminSuccess::IpBanned.tag(), "IP_BANNED");
    assert_eq!(AdminError::InternalError.tag(), "INTERNAL_ERROR");
    assert_eq!(ContentRequestError::MissingToken.tag(), "MISSING_TOKEN");
    assert_eq!(ResponseError::Unauthenticated.tag(), "UNAUTHENTICATED");
    assert_eq!(
        ResponseError::InternalServerError.tag(),
        "INTERNAL_SERVER_ERROR"
    );
    assert_eq!(
        ResponseError::AuthRequestError(AuthError::InvalidToken).tag(),
        "AUTH_REQUEST_ERROR"
    );
    assert_eq!(
        RawContentRequest::HideThread(RawHideThreadPayload { id: 1, hide: true }).tag(),
        "HIDE_THREAD"
    );
    let _ = RawGetHiddenPayload {
        include_hidden: true,
    };
}

#[test]
fn a_reason_is_written_as_its_bare_name() {
    assert_eq!(AuthError::InvalidCredentials.tag(), "InvalidCredentials");
    assert_eq!(ContentError::MissingContent.tag(), "MissingContent");
    assert_eq!(ValidationError::InvalidQuery.tag(), "InvalidQuery");
}

#[test]
fn a_name_is_read_back_as_its_variant() {
    for value in vec![
        AuthSuccess::Authenticated,
        AuthSuccess::Deauthenticated,
        AuthSuccess::UserRegistered,
    ] {
        assert_eq!(AuthSuccess::from_tag(value.tag()), Some(value));
    }
    for value in vec![
        ContentRequestError::Hidden,
        ContentRequestError::InvalidId,
        ContentRequestError::MissingToken,
        ContentRequestError::InvalidToken,
        ContentRequestError::InvalidQuery,
    ] {
        assert_eq!(ContentRequestError::from_tag(value.tag()), Some(value));
    }
    for value in vec![
        ValidationError::InvalidUsername,
        ValidationError::InvalidPassword,
        ValidationError::InvalidId,
        ValidationError::InvalidTitle,
        ValidationError::InvalidDescription,
        ValidationError::InvalidCommentContent,
        ValidationError::InvalidEmail,
        ValidationError::InvalidQuery,
    ] {
        assert_eq!(ValidationError::from_tag(value.tag()), Some(value));
    }
    for value in vec![
        AuthError::InvalidToken,
        AuthError::InvalidUsername,
        AuthError::InvalidPassword,
        AuthError::InvalidCredentials,
        AuthError::ExistingUser,
        AuthError::InternalServerError,
    ] {
        assert_eq!(AuthError::from_tag(value.tag()), Some(value));
    }
}

#[test]
fn an_unknown_name_is_no_variant() {
    assert_eq!(AuthSuccess::from_tag("authenticated"), None);
    assert_eq!(AuthSuccess::from_tag("AUTHENTICATED "), None);
    assert_eq!(AuthSuccess::from_tag(""), None);
    assert_eq!(AuthSuccess::from_tag("Authenticated"), None);
    assert_eq!(AdminError::from_tag("INTERNAL_SERVER_ERROR"), None);
    assert_eq!(ValidationError::from_tag("INVALID_ID"), None);
}

#[test]
fn checking_a_request_keeps_its_name() {
    let raw = RawContentRequests::UploadAvatar(RawUploadAvatarPayload {
        user_id: 1,
        avatar: "a.png",
    });
    let valid = ContentRequests::try_from(raw).unwrap();
    assert_eq!(valid.tag(), raw.tag());
}

#[test]
fn texts_are_compared_character_by_character() {
    assert!(texts_equal("", ""));
    assert!(texts_equal("abc", "abc"));
    assert!(!texts_equal("abc", "abd"));
    assert!(!texts_equal("abc", "ab"));
    assert!(!texts_equal("e\u{301}", "é"));
}

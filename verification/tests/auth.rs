use datatypes::auth::requests::{
    AuthPayload, AuthRequest, RawSetUserRolePayload, RegisterUserPayload, SetUserRolePayload,
};
use datatypes::auth::responses::Role;
use datatypes::external::auth::requests::{
    AuthRequest as RawAuthRequest, AuthRequestPayload, RegisterUserPayload as RawRegisterUserPayload,
};
use datatypes::payloads::EmptyPayloadStrict;
use datatypes::valid::ValidationError;

#[test]
fn a_role_is_read_from_its_name() {
    assert_eq!(Role::from("admin"), Role::Admin);
    assert_eq!(Role::from("moderator"), Role::Moderator);
    assert_eq!(Role::from("user"), Role::User);
}

#[test]
fn an_unknown_role_is_the_least_privileged() {
    for text in vec!["", "Admin", "ADMIN", "admin ", "root", "moderators", "adminn", "usér"] {
        assert_eq!(Role::from(text), Role::User, "for the text '{}'", text);
    }
}

#[test]
fn a_role_is_written_as_its_name() {
    assert_eq!(Role::into(Role::Admin), "admin");
    assert_eq!(Role::into(Role::Moderator), "moderator");
    assert_eq!(Role::into(Role::User), "user");
    for role in vec![Role::Admin, Role::Moderator, Role::User] {
        assert_eq!(Role::from(Role::into(role).as_str()), role);
    }
}

#[test]
fn roles_rise_in_privilege() {
    assert_eq!(Role::Admin.level(), 30);
    assert_eq!(Role::Moderator.level(), 20);
    assert_eq!(Role::User.level(), 10);
    assert!(Role::Admin > Role::Moderator);
    assert!(Role::Moderator > Role::User);
}

#[test]
fn signing_in_checks_the_name_before_the_password() {
    let both_bad = AuthRequestPayload {
        raw_username: "jo",
        raw_password: "johnsmith",
    };
    assert!(AuthPayload::try_from(both_bad).err() == Some(ValidationError::InvalidUsername));

    let bad_password = AuthRequestPayload {
        raw_username: "john",
        raw_password: "johnsmith",
    };
    assert!(AuthPayload::try_from(bad_password).err() == Some(ValidationError::InvalidPassword));

    let good = AuthRequestPayload {
        raw_username: "john",
        raw_password: "helloAndWelcome123",
    };
    match AuthPayload::try_from(good) {
        Ok(payload) => {
            assert_eq!(payload.username.as_ref(), "john");
            assert_eq!(payload.password.as_ref(), "helloAndWelcome123");
        }
        Err(reason) => panic!("refused: {:?}", reason),
    }
}

#[test]
fn registering_checks_the_fields_in_order() {
    let raw = RawRegisterUserPayload {
        raw_username: "john",
        raw_password: "short",
        raw_email: "nobody",
    };
    assert!(RegisterUserPayload::try_from(raw).err() == Some(ValidationError::InvalidPassword));

    let raw = RawRegisterUserPayload {
        raw_username: "john",
        raw_password: "helloAndWelcome123",
        raw_email: "nobody",
    };
    assert!(RegisterUserPayload::try_from(raw).err() == Some(ValidationError::InvalidEmail));

    let raw = RawRegisterUserPayload {
        raw_username: "john",
        raw_password: "helloAndWelcome123",
        raw_email: "john@example.com",
    };
    match RegisterUserPayload::try_from(raw) {
        Ok(payload) => assert_eq!(payload.email.as_ref(), "john@example.com"),
        Err(reason) => panic!("refused: {:?}", reason),
    }
}

#[test]
fn signing_out_is_the_same_with_an_empty_payload_and_with_none() {
    let absent = AuthRequest::try_from(RawAuthRequest::Deauthenticate(None));
    let present = AuthRequest::try_from(RawAuthRequest::Deauthenticate(Some(
        EmptyPayloadStrict {},
    )));
    match (absent, present) {
        (Ok(AuthRequest::Deauthenticate(a)), Ok(AuthRequest::Deauthenticate(b))) => {
            assert_eq!(a, b);
            assert_eq!(a, None);
        }
        _ => panic!("signing out was refused or changed its variant"),
    }
}

#[test]
fn an_auth_request_keeps_its_variant() {
    let raw = RawAuthRequest::Authenticate(AuthRequestPayload {
        raw_username: "irene",
        raw_password: "helloAndWelcome123",
    });
    assert!(matches!(
        AuthRequest::try_from(raw),
        Ok(AuthRequest::Authenticate(_))
    ));
    let raw = RawAuthRequest::RegisterUser(RawRegisterUserPayload {
        raw_username: "irene",
        raw_password: "helloAndWelcome123",
        raw_email: "irene@google",
    });
    assert!(matches!(
        AuthRequest::try_from(raw),
        Err(ValidationError::InvalidEmail)
    ));
}

#[test]
fn setting_a_role_is_never_refused() {
    let raw = RawSetUserRolePayload {
        id: 9,
        role: "moderator",
    };
    let valid = SetUserRolePayload::try_from(raw).unwrap();
    assert_eq!(*valid.id.as_ref(), 9);
    assert_eq!(valid.role, Role::Moderator);

    let raw = RawSetUserRolePayload {
        id: 9,
        role: "emperor",
    };
    assert_eq!(SetUserRolePayload::try_from(raw).unwrap().role, Role::User);
}

use datatypes::payloads::{Token, TokenPayload, UserIdPayload, USER_TOKEN_NAME};
use datatypes::error::ResponseError;
use datatypes::valid::ids::UserId;

#[derive(Debug, PartialEq)]
struct Profile {
    name: String,
    email: String,
}

fn profile() -> Profile {
    Profile {
        name: String::from("John Doe"),
        email: String::from("john@doe.com"),
    }
}

#[test]
fn a_token_payload_holds_what_it_was_made_of() {
    let payload: TokenPayload<Profile, u32> = TokenPayload::new(profile(), 123456789);
    assert_eq!(*payload.token(), 123456789);
    assert_eq!(payload.into_inner(), (profile(), 123456789));
}

#[test]
fn setting_a_token_hands_back_the_previous_one() {
    let mut payload: TokenPayload<Profile, u32> = TokenPayload::new(profile(), 1);
    assert_eq!(payload.set_token(2), 1);
    assert_eq!(*payload.token(), 2);
    assert_eq!(payload.set_token(3), 2);
    assert_eq!(payload.into_inner(), (profile(), 3));
}

#[test]
fn a_token_payload_forwards_to_what_it_wraps() {
    let mut payload: TokenPayload<Profile, u32> = TokenPayload::new(profile(), 1);
    assert_eq!(payload.name, "John Doe");
    payload.email = String::from("doe@john.com");
    assert_eq!(payload.email, "doe@john.com");
    assert_eq!(*payload.token(), 1);
    let (inner, token) = payload.into_inner();
    assert_eq!(inner.email, "doe@john.com");
    assert_eq!(token, 1);
}

#[test]
fn a_user_id_payload_holds_what_it_was_made_of() {
    let payload: UserIdPayload<Profile> = UserIdPayload::new(profile(), UserId::from(5));
    assert_eq!(*payload.id(), UserId::from(5));
    assert_eq!(payload.into_inner(), (profile(), UserId::from(5)));
}

#[test]
fn setting_a_user_id_hands_back_the_previous_one() {
    let mut payload: UserIdPayload<Profile> = UserIdPayload::new(profile(), UserId::from(5));
    assert_eq!(payload.set_id(UserId::from(6)), UserId::from(5));
    assert_eq!(*payload.id(), UserId::from(6));
    assert_eq!(payload.name, "John Doe");
    payload.name = String::from("Jane Doe");
    assert_eq!(payload.into_inner().0.name, "Jane Doe");
}

#[test]
fn a_token_keeps_its_text() {
    let token = Token::new(String::from("abc.def"));
    assert_eq!(token.as_ref(), "abc.def");
    assert_eq!(token.into_inner(), "abc.def");
    assert_eq!(Token::new(String::new()).as_ref(), "");
    assert_eq!(USER_TOKEN_NAME, "user_token");
}

#[test]
fn a_request_without_a_token_is_not_authenticated() {
    match Token::from_request(None) {
        Err(reason) => assert_eq!(reason, ResponseError::Unauthenticated),
        Ok(_) => panic!("a token came out of nothing"),
    }
    match Token::from_request(Some(String::from("s3cr3t"))) {
        Ok(token) => assert_eq!(token.as_ref(), "s3cr3t"),
        Err(reason) => panic!("refused: {:?}", reason),
    }
}

//! The envelope that every request and every response travels in
//!
//! On the wire a request or a response is an object with two keys. The first,
//! `type`, names the variant in upper case with `_` between the words. The
//! second, `payload`, holds the fields of the variant; a variant without data
//! has an empty payload or none. The reasons for which a service refuses a
//! request are written as their bare names.
//!
//! This module fixes the names. Turning bytes into fields is left to the
//! program that uses the library.

use vstd::prelude::*;
use crate::valid::convert::FromRaw;

verus! {

/// The key under which an envelope names its variant.
pub const TYPE_KEY: &'static str = "type";

/// The key under which an envelope holds the fields of its variant.
pub const PAYLOAD_KEY: &'static str = "payload";

/// A request or a response that names its variant on the wire.
pub trait Tagged {
    /// The name of the variant.
    spec fn tag_name(&self) -> Seq<char>;

    /// The name of the variant, as it is written under `TYPE_KEY`.
    fn tag(&self) -> (name: &'static str)
        ensures
            name@ == self.tag_name(),
    ;
}

/// Whether two texts are the same.
pub fn texts_equal(one: &str, other: &str) -> (same: bool)
    ensures
        same == (one@ == other@),
{
    one.to_owned() == other.to_owned()
}

impl<'a> Tagged for crate::admin::requests::RawAdminRequest<'a> {
    open spec fn tag_name(&self) -> Seq<char> {
        match self {
            crate::admin::requests::RawAdminRequest::BanIp(_) => "BAN_IP"@,
            crate::admin::requests::RawAdminRequest::UnbanIp(_) => "UNBAN_IP"@,
            crate::admin::requests::RawAdminRequest::SetUserRole(_) => "SET_USER_ROLE"@,
        }
    }

    fn tag(&self) -> (name: &'static str) {
        match self {
            crate::admin::requests::RawAdminRequest::BanIp(_) => "BAN_IP",
            crate::admin::requests::RawAdminRequest::UnbanIp(_) => "UNBAN_IP",
            crate::admin::requests::RawAdminRequest::SetUserRole(_) => "SET_USER_ROLE",
        }
    }
}

impl Tagged for crate::admin::requests::AdminRequest {
    open spec fn tag_name(&self) -> Seq<char> {
        match self {
            crate::admin::requests::AdminRequest::BanIp(_) => "BAN_IP"@,
            crate::admin::requests::AdminRequest::UnbanIp(_) => "UNBAN_IP"@,
            crate::admin::requests::AdminRequest::SetUserRole(_) => "SET_USER_ROLE"@,
        }
    }

    fn tag(&self) -> (name: &'static str) {
        match self {
            crate::admin::requests::AdminRequest::BanIp(_) => "BAN_IP",
            crate::admin::requests::AdminRequest::UnbanIp(_) => "UNBAN_IP",
            crate::admin::requests::AdminRequest::SetUserRole(_) => "SET_USER_ROLE",
        }
    }
}

impl Tagged for crate::admin::responses::AdminSuccess {
    open spec fn tag_name(&self) -> Seq<char> {
        match self {
            crate::admin::responses::AdminSuccess::IpBanned => "IP_BANNED"@,
            crate::admin::responses::AdminSuccess::IpUnbanned => "IP_UNBANNED"@,
            crate::admin::responses::AdminSuccess::ChangedRole => "CHANGED_ROLE"@,
        }
    }

    fn tag(&self) -> (name: &'static str) {
        match self {
            crate::admin::responses::AdminSuccess::IpBanned => "IP_BANNED",
            crate::admin::responses::AdminSuccess::IpUnbanned => "IP_UNBANNED",
            crate::admin::responses::AdminSuccess::ChangedRole => "CHANGED_ROLE",
        }
    }
}

impl crate::admin::responses::AdminSuccess {
    /// The variant that `tag` names, if it names one.
    pub fn from_tag(tag: &str) -> (found: Option<Self>)
        ensures
            match found {
                Some(value) => value.tag_name() == tag@,
                None => forall|value: Self| value.tag_name() != tag@,
            },
    {
        if texts_equal(tag, "IP_BANNED") {
            Some(crate::admin::responses::AdminSuccess::IpBanned)
        } else if texts_equal(tag, "IP_UNBANNED") {
            Some(crate::admin::responses::AdminSuccess::IpUnbanned)
        } else if texts_equal(tag, "CHANGED_ROLE") {
            Some(crate::admin::responses::AdminSuccess::ChangedRole)
        } else {
            None
        }
    }

    /// No two variants have the same name, so a name that is written and
    /// read back gives the variant that wrote it.
    pub proof fn lemma_tag_names_differ(self, other: Self)
        ensures
            self.tag_name() == other.tag_name() <==> self == other,
    {
        reveal_strlit("IP_BANNED");
        reveal_strlit("IP_UNBANNED");
        reveal_strlit("CHANGED_ROLE");
        assert("IP_BANNED"@.len() == 9);
        assert("IP_UNBANNED"@.len() == 11);
        assert("CHANGED_ROLE"@.len() == 12);
    }
}

impl Tagged for crate::admin::responses::AdminError {
    open spec fn tag_name(&self) -> Seq<char> {
        match self {
            crate::admin::responses::AdminError::InternalError => "INTERNAL_ERROR"@,
        }
    }

    fn tag(&self) -> (name: &'static str) {
        match self {
            crate::admin::responses::AdminError::InternalError => "INTERNAL_ERROR",
        }
    }
}

impl crate::admin::responses::AdminError {
    /// The variant that `tag` names, if it names one.
    pub fn from_tag(tag: &str) -> (found: Option<Self>)
        ensures
            match found {
                Some(value) => value.tag_name() == tag@,
                None => forall|value: Self| value.tag_name() != tag@,
            },
    {
        if texts_equal(tag, "INTERNAL_ERROR") {
            Some(crate::admin::responses::AdminError::InternalError)
        } else {
            None
        }
    }

    /// No two variants have the same name, so a name that is written and
    /// read back gives the variant that wrote it.
    pub proof fn lemma_tag_names_differ(self, other: Self)
        ensures
            self.tag_name() == other.tag_name() <==> self == other,
    {
        reveal_strlit("INTERNAL_ERROR");
        assert("INTERNAL_ERROR"@.len() == 14);
    }
}

impl Tagged for crate::auth::requests::AuthRequest {
    open spec fn tag_name(&self) -> Seq<char> {
        match self {
            crate::auth::requests::AuthRequest::Authenticate(_) => "AUTHENTICATE"@,
            crate::auth::requests::AuthRequest::Deauthenticate(_) => "DEAUTHENTICATE"@,
            crate::auth::requests::AuthRequest::RegisterUser(_) => "REGISTER_USER"@,
        }
    }

    fn tag(&self) -> (name: &'static str) {
        match self {
            crate::auth::requests::AuthRequest::Authenticate(_) => "AUTHENTICATE",
            crate::auth::requests::AuthRequest::Deauthenticate(_) => "DEAUTHENTICATE",
            crate::auth::requests::AuthRequest::RegisterUser(_) => "REGISTER_USER",
        }
    }
}

impl Tagged for crate::auth::responses::AuthSuccess {
    open spec fn tag_name(&self) -> Seq<char> {
        match self {
            crate::auth::responses::AuthSuccess::Authenticated => "AUTHENTICATED"@,
            crate::auth::responses::AuthSuccess::Deauthenticated => "DEAUTHENTICATED"@,
            crate::auth::responses::AuthSuccess::UserRegistered => "USER_REGISTERED"@,
        }
    }

    fn tag(&self) -> (name: &'static str) {
        match self {
            crate::auth::responses::AuthSuccess::Authenticated => "AUTHENTICATED",
            crate::auth::responses::AuthSuccess::Deauthenticated => "DEAUTHENTICATED",
            crate::auth::responses::AuthSuccess::UserRegistered => "USER_REGISTERED",
        }
    }
}

impl crate::auth::responses::AuthSuccess {
    /// The variant that `tag` names, if it names one.
    pub fn from_tag(tag: &str) -> (found: Option<Self>)
        ensures
            match found {
                Some(value) => value.tag_name() == tag@,
                None => forall|value: Self| value.tag_name() != tag@,
            },
    {
        if texts_equal(tag, "AUTHENTICATED") {
            Some(crate::auth::responses::AuthSuccess::Authenticated)
        } else if texts_equal(tag, "DEAUTHENTICATED") {
            Some(crate::auth::responses::AuthSuccess::Deauthenticated)
        } else if texts_equal(tag, "USER_REGISTERED") {
            Some(crate::auth::responses::AuthSuccess::UserRegistered)
        } else {
            None
        }
    }

    /// No two variants have the same name, so a name that is written and
    /// read back gives the variant that wrote it.
    pub proof fn lemma_tag_names_differ(self, other: Self)
        ensures
            self.tag_name() == other.tag_name() <==> self == other,
    {
        reveal_strlit("AUTHENTICATED");
        reveal_strlit("DEAUTHENTICATED");
        reveal_strlit("USER_REGISTERED");
        assert("AUTHENTICATED"@.len() == 13);
        assert("DEAUTHENTICATED"@.len() == 15);
        assert("USER_REGISTERED"@.len() == 15);
        assert("DEAUTHENTICATED"@[0] != "USER_REGISTERED"@[0]);
    }
}

impl Tagged for crate::auth::responses::AuthError {
    open spec fn tag_name(&self) -> Seq<char> {
        match self {
            crate::auth::responses::AuthError::InvalidToken => "InvalidToken"@,
            crate::auth::responses::AuthError::InvalidUsername => "InvalidUsername"@,
            crate::auth::responses::AuthError::InvalidPassword => "InvalidPassword"@,
            crate::auth::responses::AuthError::InvalidCredentials => "InvalidCredentials"@,
            crate::auth::responses::AuthError::ExistingUser => "ExistingUser"@,
            crate::auth::responses::AuthError::InternalServerError => "InternalServerError"@,
        }
    }

    fn tag(&self) -> (name: &'static str) {
        match self {
            crate::auth::responses::AuthError::InvalidToken => "InvalidToken",
            crate::auth::responses::AuthError::InvalidUsername => "InvalidUsername",
            crate::auth::responses::AuthError::InvalidPassword => "InvalidPassword",
            crate::auth::responses::AuthError::InvalidCredentials => "InvalidCredentials",
            crate::auth::responses::AuthError::ExistingUser => "ExistingUser",
            crate::auth::responses::AuthError::InternalServerError => "InternalServerError",
        }
    }
}

impl crate::auth::responses::AuthError {
    /// The variant that `tag` names, if it names one.
    pub fn from_tag(tag: &str) -> (found: Option<Self>)
        ensures
            match found {
                Some(value) => value.tag_name() == tag@,
                None => forall|value: Self| value.tag_name() != tag@,
            },
    {
        if texts_equal(tag, "InvalidToken") {
            Some(crate::auth::responses::AuthError::InvalidToken)
        } else if texts_equal(tag, "InvalidUsername") {
            Some(crate::auth::responses::AuthError::InvalidUsername)
        } else if texts_equal(tag, "InvalidPassword") {
            Some(crate::auth::responses::AuthError::InvalidPassword)
        } else if texts_equal(tag, "InvalidCredentials") {
            Some(crate::auth::responses::AuthError::InvalidCredentials)
        } else if texts_equal(tag, "ExistingUser") {
            Some(crate::auth::responses::AuthError::ExistingUser)
        } else if texts_equal(tag, "InternalServerError") {
            Some(crate::auth::responses::AuthError::InternalServerError)
        } else {
            None
        }
    }

    /// No two variants have the same name, so a name that is written and
    /// read back gives the variant that wrote it.
    pub proof fn lemma_tag_names_differ(self, other: Self)
        ensures
            self.tag_name() == other.tag_name() <==> self == other,
    {
        reveal_strlit("InvalidToken");
        reveal_strlit("InvalidUsername");
        reveal_strlit("InvalidPassword");
        reveal_strlit("InvalidCredentials");
        reveal_strlit("ExistingUser");
        reveal_strlit("InternalServerError");
        assert("InvalidToken"@.len() == 12);
        assert("InvalidUsername"@.len() == 15);
        assert("InvalidPassword"@.len() == 15);
        assert("InvalidCredentials"@.len() == 18);
        assert("ExistingUser"@.len() == 12);
        assert("InternalServerError"@.len() == 19);
        assert("InvalidToken"@[0] != "ExistingUser"@[0]);
        assert("InvalidUsername"@[7] != "InvalidPassword"@[7]);
    }
}

impl<'a> Tagged for crate::content::requests::RawContentRequest<'a> {
    open spec fn tag_name(&self) -> Seq<char> {
        match self {
            crate::content::requests::RawContentRequest::AddUser(_) => "ADD_USER"@,
            crate::content::requests::RawContentRequest::EditUser(_) => "EDIT_USER"@,
            crate::content::requests::RawContentRequest::AddCategory(_) => "ADD_CATEGORY"@,
            crate::content::requests::RawContentRequest::EditCategory(_) => "EDIT_CATEGORY"@,
            crate::content::requests::RawContentRequest::HideCategory(_) => "HIDE_CATEGORY"@,
            crate::content::requests::RawContentRequest::AddThread(_) => "ADD_THREAD"@,
            crate::content::requests::RawContentRequest::EditThread(_) => "EDIT_THREAD"@,
            crate::content::requests::RawContentRequest::HideThread(_) => "HIDE_THREAD"@,
            crate::content::requests::RawContentRequest::AddComment(_) => "ADD_COMMENT"@,
            crate::content::requests::RawContentRequest::EditComment(_) => "EDIT_COMMENT"@,
            crate::content::requests::RawContentRequest::HideComment(_) => "HIDE_COMMENT"@,
        }
    }

    fn tag(&self) -> (name: &'static str) {
        match self {
            crate::content::requests::RawContentRequest::AddUser(_) => "ADD_USER",
            crate::content::requests::RawContentRequest::EditUser(_) => "EDIT_USER",
            crate::content::requests::RawContentRequest::AddCategory(_) => "ADD_CATEGORY",
            crate::content::requests::RawContentRequest::EditCategory(_) => "EDIT_CATEGORY",
            crate::content::requests::RawContentRequest::HideCategory(_) => "HIDE_CATEGORY",
            crate::content::requests::RawContentRequest::AddThread(_) => "ADD_THREAD",
            crate::content::requests::RawContentRequest::EditThread(_) => "EDIT_THREAD",
            crate::content::requests::RawContentRequest::HideThread(_) => "HIDE_THREAD",
            crate::content::requests::RawContentRequest::AddComment(_) => "ADD_COMMENT",
            crate::content::requests::RawContentRequest::EditComment(_) => "EDIT_COMMENT",
            crate::content::requests::RawContentRequest::HideComment(_) => "HIDE_COMMENT",
        }
    }
}

impl Tagged for crate::content::requests::ContentRequest {
    open spec fn tag_name(&self) -> Seq<char> {
        match self {
            crate::content::requests::ContentRequest::AddUser(_) => "ADD_USER"@,
            crate::content::requests::ContentRequest::EditUser(_) => "EDIT_USER"@,
            crate::content::requests::ContentRequest::AddCategory(_) => "ADD_CATEGORY"@,
            crate::content::requests::ContentRequest::EditCategory(_) => "EDIT_CATEGORY"@,
            crate::content::requests::ContentRequest::HideCategory(_) => "HIDE_CATEGORY"@,
            crate::content::requests::ContentRequest::AddThread(_) => "ADD_THREAD"@,
            crate::content::requests::ContentRequest::EditThread(_) => "EDIT_THREAD"@,
            crate::content::requests::ContentRequest::HideThread(_) => "HIDE_THREAD"@,
            crate::content::requests::ContentRequest::AddComment(_) => "ADD_COMMENT"@,
            crate::content::requests::ContentRequest::EditComment(_) => "EDIT_COMMENT"@,
            crate::content::requests::ContentRequest::HideComment(_) => "HIDE_COMMENT"@,
        }
    }

    fn tag(&self) -> (name: &'static str) {
        match self {
            crate::content::requests::ContentRequest::AddUser(_) => "ADD_USER",
            crate::content::requests::ContentRequest::EditUser(_) => "EDIT_USER",
            crate::content::requests::ContentRequest::AddCategory(_) => "ADD_CATEGORY",
            crate::content::requests::ContentRequest::EditCategory(_) => "EDIT_CATEGORY",
            crate::content::requests::ContentRequest::HideCategory(_) => "HIDE_CATEGORY",
            crate::content::requests::ContentRequest::AddThread(_) => "ADD_THREAD",
            crate::content::requests::ContentRequest::EditThread(_) => "EDIT_THREAD",
            crate::content::requests::ContentRequest::HideThread(_) => "HIDE_THREAD",
            crate::content::requests::ContentRequest::AddComment(_) => "ADD_COMMENT",
            crate::content::requests::ContentRequest::EditComment(_) => "EDIT_COMMENT",
            crate::content::requests::ContentRequest::HideComment(_) => "HIDE_COMMENT",
        }
    }
}

impl<'a> Tagged for crate::content::responses::RawContentSuccess<'a> {
    open spec fn tag_name(&self) -> Seq<char> {
        match self {
            crate::content::responses::RawContentSuccess::Category(_) => "CATEGORY"@,
            crate::content::responses::RawContentSuccess::Categories(_) => "CATEGORIES"@,
            crate::content::responses::RawContentSuccess::Thread(_) => "THREAD"@,
            crate::content::responses::RawContentSuccess::Threads(_) => "THREADS"@,
            crate::content::responses::RawContentSuccess::Comment(_) => "COMMENT"@,
            crate::content::responses::RawContentSuccess::Comments(_) => "COMMENTS"@,
            crate::content::responses::RawContentSuccess::User(_) => "USER"@,
            crate::content::responses::RawContentSuccess::Users(_) => "USERS"@,
            crate::content::responses::RawContentSuccess::SearchResult(_) => "SEARCH_RESULT"@,
        }
    }

    fn tag(&self) -> (name: &'static str) {
        match self {
            crate::content::responses::RawContentSuccess::Category(_) => "CATEGORY",
            crate::content::responses::RawContentSuccess::Categories(_) => "CATEGORIES",
            crate::content::responses::RawContentSuccess::Thread(_) => "THREAD",
            crate::content::responses::RawContentSuccess::Threads(_) => "THREADS",
            crate::content::responses::RawContentSuccess::Comment(_) => "COMMENT",
            crate::content::responses::RawContentSuccess::Comments(_) => "COMMENTS",
            crate::content::responses::RawContentSuccess::User(_) => "USER",
            crate::content::responses::RawContentSuccess::Users(_) => "USERS",
            crate::content::responses::RawContentSuccess::SearchResult(_) => "SEARCH_RESULT",
        }
    }
}

impl Tagged for crate::content::responses::ContentSuccess {
    open spec fn tag_name(&self) -> Seq<char> {
        match self {
            crate::content::responses::ContentSuccess::Category(_) => "CATEGORY"@,
            crate::content::responses::ContentSuccess::Categories(_) => "CATEGORIES"@,
            crate::content::responses::ContentSuccess::Thread(_) => "THREAD"@,
            crate::content::responses::ContentSuccess::Threads(_) => "THREADS"@,
            crate::content::responses::ContentSuccess::Comment(_) => "COMMENT"@,
            crate::content::responses::ContentSuccess::Comments(_) => "COMMENTS"@,
            crate::content::responses::ContentSuccess::User(_) => "USER"@,
            crate::content::responses::ContentSuccess::Users(_) => "USERS"@,
            crate::content::responses::ContentSuccess::SearchResult(_) => "SEARCH_RESULT"@,
        }
    }

    fn tag(&self) -> (name: &'static str) {
        match self {
            crate::content::responses::ContentSuccess::Category(_) => "CATEGORY",
            crate::content::responses::ContentSuccess::Categories(_) => "CATEGORIES",
            crate::content::responses::ContentSuccess::Thread(_) => "THREAD",
            crate::content::responses::ContentSuccess::Threads(_) => "THREADS",
            crate::content::responses::ContentSuccess::Comment(_) => "COMMENT",
            crate::content::responses::ContentSuccess::Comments(_) => "COMMENTS",
            crate::content::responses::ContentSuccess::User(_) => "USER",
            crate::content::responses::ContentSuccess::Users(_) => "USERS",
            crate::content::responses::ContentSuccess::SearchResult(_) => "SEARCH_RESULT",
        }
    }
}

impl Tagged for crate::content::responses::ContentError {
    open spec fn tag_name(&self) -> Seq<char> {
        match self {
            crate::content::responses::ContentError::MissingContent => "MissingContent"@,
            crate::content::responses::ContentError::HiddenContent => "HiddenContent"@,
            crate::content::responses::ContentError::InternalServerError => "InternalServerError"@,
            crate::content::responses::ContentError::InvalidSearchQuery => "InvalidSearchQuery"@,
            crate::content::responses::ContentError::InvalidId => "InvalidId"@,
            crate::content::responses::ContentError::InvalidContent => "InvalidContent"@,
        }
    }

    fn tag(&self) -> (name: &'static str) {
        match self {
            crate::content::responses::ContentError::MissingContent => "MissingContent",
            crate::content::responses::ContentError::HiddenContent => "HiddenContent",
            crate::content::responses::ContentError::InternalServerError => "InternalServerError",
            crate::content::responses::ContentError::InvalidSearchQuery => "InvalidSearchQuery",
            crate::content::responses::ContentError::InvalidId => "InvalidId",
            crate::content::responses::ContentError::InvalidContent => "InvalidContent",
        }
    }
}

impl crate::content::responses::ContentError {
    /// The variant that `tag` names, if it names one.
    pub fn from_tag(tag: &str) -> (found: Option<Self>)
        ensures
            match found {
                Some(value) => value.tag_name() == tag@,
                None => forall|value: Self| value.tag_name() != tag@,
            },
    {
        if texts_equal(tag, "MissingContent") {
            Some(crate::content::responses::ContentError::MissingContent)
        } else if texts_equal(tag, "HiddenContent") {
            Some(crate::content::responses::ContentError::HiddenContent)
        } else if texts_equal(tag, "InternalServerError") {
            Some(crate::content::responses::ContentError::InternalServerError)
        } else if texts_equal(tag, "InvalidSearchQuery") {
            Some(crate::content::responses::ContentError::InvalidSearchQuery)
        } else if texts_equal(tag, "InvalidId") {
            Some(crate::content::responses::ContentError::InvalidId)
        } else if texts_equal(tag, "InvalidContent") {
            Some(crate::content::responses::ContentError::InvalidContent)
        } else {
            None
        }
    }

    /// No two variants have the same name, so a name that is written and
    /// read back gives the variant that wrote it.
    pub proof fn lemma_tag_names_differ(self, other: Self)
        ensures
            self.tag_name() == other.tag_name() <==> self == other,
    {
        reveal_strlit("MissingContent");
        reveal_strlit("HiddenContent");
        reveal_strlit("InternalServerError");
        reveal_strlit("InvalidSearchQuery");
        reveal_strlit("InvalidId");
        reveal_strlit("InvalidContent");
        assert("MissingContent"@.len() == 14);
        assert("HiddenContent"@.len() == 13);
        assert("InternalServerError"@.len() == 19);
        assert("InvalidSearchQuery"@.len() == 18);
        assert("InvalidId"@.len() == 9);
        assert("InvalidContent"@.len() == 14);
        assert("MissingContent"@[0] != "InvalidContent"@[0]);
    }
}

impl Tagged for crate::error::ResponseError {
    open spec fn tag_name(&self) -> Seq<char> {
        match self {
            crate::error::ResponseError::AuthRequestError(_) => "AUTH_REQUEST_ERROR"@,
            crate::error::ResponseError::ContentRequestError(_) => "CONTENT_REQUEST_ERROR"@,
            crate::error::ResponseError::AdminRequestError(_) => "ADMIN_REQUEST_ERROR"@,
            crate::error::ResponseError::Unauthenticated => "UNAUTHENTICATED"@,
            crate::error::ResponseError::Unauthorized => "UNAUTHORIZED"@,
            crate::error::ResponseError::InternalServerError => "INTERNAL_SERVER_ERROR"@,
        }
    }

    fn tag(&self) -> (name: &'static str) {
        match self {
            crate::error::ResponseError::AuthRequestError(_) => "AUTH_REQUEST_ERROR",
            crate::error::ResponseError::ContentRequestError(_) => "CONTENT_REQUEST_ERROR",
            crate::error::ResponseError::AdminRequestError(_) => "ADMIN_REQUEST_ERROR",
            crate::error::ResponseError::Unauthenticated => "UNAUTHENTICATED",
            crate::error::ResponseError::Unauthorized => "UNAUTHORIZED",
            crate::error::ResponseError::InternalServerError => "INTERNAL_SERVER_ERROR",
        }
    }
}

impl<'a> Tagged for crate::external::auth::requests::AuthRequest<'a> {
    open spec fn tag_name(&self) -> Seq<char> {
        match self {
            crate::external::auth::requests::AuthRequest::Authenticate(_) => "AUTHENTICATE"@,
            crate::external::auth::requests::AuthRequest::Deauthenticate(_) => "DEAUTHENTICATE"@,
            crate::external::auth::requests::AuthRequest::RegisterUser(_) => "REGISTER_USER"@,
        }
    }

    fn tag(&self) -> (name: &'static str) {
        match self {
            crate::external::auth::requests::AuthRequest::Authenticate(_) => "AUTHENTICATE",
            crate::external::auth::requests::AuthRequest::Deauthenticate(_) => "DEAUTHENTICATE",
            crate::external::auth::requests::AuthRequest::RegisterUser(_) => "REGISTER_USER",
        }
    }
}

impl Tagged for crate::external::auth::responses::AuthSuccess {
    open spec fn tag_name(&self) -> Seq<char> {
        match self {
            crate::external::auth::responses::AuthSuccess::Authenticated => "AUTHENTICATED"@,
            crate::external::auth::responses::AuthSuccess::Deauthenticated => "DEAUTHENTICATED"@,
            crate::external::auth::responses::AuthSuccess::UserRegistered => "USER_REGISTERED"@,
        }
    }

    fn tag(&self) -> (name: &'static str) {
        match self {
            crate::external::auth::responses::AuthSuccess::Authenticated => "AUTHENTICATED",
            crate::external::auth::responses::AuthSuccess::Deauthenticated => "DEAUTHENTICATED",
            crate::external::auth::responses::AuthSuccess::UserRegistered => "USER_REGISTERED",
        }
    }
}

impl crate::external::auth::responses::AuthSuccess {
    /// The variant that `tag` names, if it names one.
    pub fn from_tag(tag: &str) -> (found: Option<Self>)
        ensures
            match found {
                Some(value) => value.tag_name() == tag@,
                None => forall|value: Self| value.tag_name() != tag@,
            },
    {
        if texts_equal(tag, "AUTHENTICATED") {
            Some(crate::external::auth::responses::AuthSuccess::Authenticated)
        } else if texts_equal(tag, "DEAUTHENTICATED") {
            Some(crate::external::auth::responses::AuthSuccess::Deauthenticated)
        } else if texts_equal(tag, "USER_REGISTERED") {
            Some(crate::external::auth::responses::AuthSuccess::UserRegistered)
        } else {
            None
        }
    }

    /// No two variants have the same name, so a name that is written and
    /// read back gives the variant that wrote it.
    pub proof fn lemma_tag_names_differ(self, other: Self)
        ensures
            self.tag_name() == other.tag_name() <==> self == other,
    {
        reveal_strlit("AUTHENTICATED");
        reveal_strlit("DEAUTHENTICATED");
        reveal_strlit("USER_REGISTERED");
        assert("AUTHENTICATED"@.len() == 13);
        assert("DEAUTHENTICATED"@.len() == 15);
        assert("USER_REGISTERED"@.len() == 15);
        assert("DEAUTHENTICATED"@[0] != "USER_REGISTERED"@[0]);
    }
}

impl Tagged for crate::external::auth::responses::AuthError {
    open spec fn tag_name(&self) -> Seq<char> {
        match self {
            crate::external::auth::responses::AuthError::MissingTokenClient =>
                "MISSING_TOKEN_CLIENT"@,
            crate::external::auth::responses::AuthError::MissingTokenServer =>
                "MISSING_TOKEN_SERVER"@,
            crate::external::auth::responses::AuthError::InvalidUsername => "INVALID_USERNAME"@,
            crate::external::auth::responses::AuthError::InvalidPassword => "INVALID_PASSWORD"@,
        }
    }

    fn tag(&self) -> (name: &'static str) {
        match self {
            crate::external::auth::responses::AuthError::MissingTokenClient =>
                "MISSING_TOKEN_CLIENT",
            crate::external::auth::responses::AuthError::MissingTokenServer =>
                "MISSING_TOKEN_SERVER",
            crate::external::auth::responses::AuthError::InvalidUsername => "INVALID_USERNAME",
            crate::external::auth::responses::AuthError::InvalidPassword => "INVALID_PASSWORD",
        }
    }
}

impl crate::external::auth::responses::AuthError {
    /// The variant that `tag` names, if it names one.
    pub fn from_tag(tag: &str) -> (found: Option<Self>)
        ensures
            match found {
                Some(value) => value.tag_name() == tag@,
                None => forall|value: Self| value.tag_name() != tag@,
            },
    {
        if texts_equal(tag, "MISSING_TOKEN_CLIENT") {
            Some(crate::external::auth::responses::AuthError::MissingTokenClient)
        } else if texts_equal(tag, "MISSING_TOKEN_SERVER") {
            Some(crate::external::auth::responses::AuthError::MissingTokenServer)
        } else if texts_equal(tag, "INVALID_USERNAME") {
            Some(crate::external::auth::responses::AuthError::InvalidUsername)
        } else if texts_equal(tag, "INVALID_PASSWORD") {
            Some(crate::external::auth::responses::AuthError::InvalidPassword)
        } else {
            None
        }
    }

    /// No two variants have the same name, so a name that is written and
    /// read back gives the variant that wrote it.
    pub proof fn lemma_tag_names_differ(self, other: Self)
        ensures
            self.tag_name() == other.tag_name() <==> self == other,
    {
        reveal_strlit("MISSING_TOKEN_CLIENT");
        reveal_strlit("MISSING_TOKEN_SERVER");
        reveal_strlit("INVALID_USERNAME");
        reveal_strlit("INVALID_PASSWORD");
        assert("MISSING_TOKEN_CLIENT"@.len() == 20);
        assert("MISSING_TOKEN_SERVER"@.len() == 20);
        assert("INVALID_USERNAME"@.len() == 16);
        assert("INVALID_PASSWORD"@.len() == 16);
        assert("MISSING_TOKEN_CLIENT"@[14] != "MISSING_TOKEN_SERVER"@[14]);
        assert("INVALID_USERNAME"@[8] != "INVALID_PASSWORD"@[8]);
    }
}

impl<'a> Tagged for crate::external::content::requests::RawContentRequests<'a> {
    open spec fn tag_name(&self) -> Seq<char> {
        match self {
            crate::external::content::requests::RawContentRequests::AddCategory(_) =>
                "ADD_CATEGORY"@,
            crate::external::content::requests::RawContentRequests::EditCategory(_) =>
                "EDIT_CATEGORY"@,
            crate::external::content::requests::RawContentRequests::HideCategory(_) =>
                "HIDE_CATEGORY"@,
            crate::external::content::requests::RawContentRequests::AddThread(_) => "ADD_THREAD"@,
            crate::external::content::requests::RawContentRequests::EditThread(_) => "EDIT_THREAD"@,
            crate::external::content::requests::RawContentRequests::HideThread(_) => "HIDE_THREAD"@,
            crate::external::content::requests::RawContentRequests::AddComment(_) => "ADD_COMMENT"@,
            crate::external::content::requests::RawContentRequests::EditComment(_) =>
                "EDIT_COMMENT"@,
            crate::external::content::requests::RawContentRequests::HideComment(_) =>
                "HIDE_COMMENT"@,
            crate::external::content::requests::RawContentRequests::UploadAvatar(_) =>
                "UPLOAD_AVATAR"@,
        }
    }

    fn tag(&self) -> (name: &'static str) {
        match self {
            crate::external::content::requests::RawContentRequests::AddCategory(_) =>
                "ADD_CATEGORY",
            crate::external::content::requests::RawContentRequests::EditCategory(_) =>
                "EDIT_CATEGORY",
            crate::external::content::requests::RawContentRequests::HideCategory(_) =>
                "HIDE_CATEGORY",
            crate::external::content::requests::RawContentRequests::AddThread(_) => "ADD_THREAD",
            crate::external::content::requests::RawContentRequests::EditThread(_) => "EDIT_THREAD",
            crate::external::content::requests::RawContentRequests::HideThread(_) => "HIDE_THREAD",
            crate::external::content::requests::RawContentRequests::AddComment(_) => "ADD_COMMENT",
            crate::external::content::requests::RawContentRequests::EditComment(_) =>
                "EDIT_COMMENT",
            crate::external::content::requests::RawContentRequests::HideComment(_) =>
                "HIDE_COMMENT",
            crate::external::content::requests::RawContentRequests::UploadAvatar(_) =>
                "UPLOAD_AVATAR",
        }
    }
}

impl<'a> Tagged for crate::external::content::requests::ContentRequests<'a> {
    open spec fn tag_name(&self) -> Seq<char> {
        match self {
            crate::external::content::requests::ContentRequests::AddCategory(_) => "ADD_CATEGORY"@,
            crate::external::content::requests::ContentRequests::EditCategory(_) =>
                "EDIT_CATEGORY"@,
            crate::external::content::requests::ContentRequests::HideCategory(_) =>
                "HIDE_CATEGORY"@,
            crate::external::content::requests::ContentRequests::AddThread(_) => "ADD_THREAD"@,
            crate::external::content::requests::ContentRequests::EditThread(_) => "EDIT_THREAD"@,
            crate::external::content::requests::ContentRequests::HideThread(_) => "HIDE_THREAD"@,
            crate::external::content::requests::ContentRequests::AddComment(_) => "ADD_COMMENT"@,
            crate::external::content::requests::ContentRequests::EditComment(_) => "EDIT_COMMENT"@,
            crate::external::content::requests::ContentRequests::HideComment(_) => "HIDE_COMMENT"@,
            crate::external::content::requests::ContentRequests::UploadAvatar(_) =>
                "UPLOAD_AVATAR"@,
        }
    }

    fn tag(&self) -> (name: &'static str) {
        match self {
            crate::external::content::requests::ContentRequests::AddCategory(_) => "ADD_CATEGORY",
            crate::external::content::requests::ContentRequests::EditCategory(_) => "EDIT_CATEGORY",
            crate::external::content::requests::ContentRequests::HideCategory(_) => "HIDE_CATEGORY",
            crate::external::content::requests::ContentRequests::AddThread(_) => "ADD_THREAD",
            crate::external::content::requests::ContentRequests::EditThread(_) => "EDIT_THREAD",
            crate::external::content::requests::ContentRequests::HideThread(_) => "HIDE_THREAD",
            crate::external::content::requests::ContentRequests::AddComment(_) => "ADD_COMMENT",
            crate::external::content::requests::ContentRequests::EditComment(_) => "EDIT_COMMENT",
            crate::external::content::requests::ContentRequests::HideComment(_) => "HIDE_COMMENT",
            crate::external::content::requests::ContentRequests::UploadAvatar(_) => "UPLOAD_AVATAR",
        }
    }
}

impl<'a> Tagged for crate::external::content::responses::RawContentRequestSuccess<'a> {
    open spec fn tag_name(&self) -> Seq<char> {
        match self {
            crate::external::content::responses::RawContentRequestSuccess::Category(_) =>
                "CATEGORY"@,
            crate::external::content::responses::RawContentRequestSuccess::Categories(_) =>
                "CATEGORIES"@,
            crate::external::content::responses::RawContentRequestSuccess::Thread(_) => "THREAD"@,
            crate::external::content::responses::RawContentRequestSuccess::Threads(_) => "THREADS"@,
            crate::external::content::responses::RawContentRequestSuccess::Comment(_) => "COMMENT"@,
            crate::external::content::responses::RawContentRequestSuccess::Comments(_) =>
                "COMMENTS"@,
            crate::external::content::responses::RawContentRequestSuccess::User(_) => "USER"@,
            crate::external::content::responses::RawContentRequestSuccess::Users(_) => "USERS"@,
        }
    }

    fn tag(&self) -> (name: &'static str) {
        match self {
            crate::external::content::responses::RawContentRequestSuccess::Category(_) =>
                "CATEGORY",
            crate::external::content::responses::RawContentRequestSuccess::Categories(_) =>
                "CATEGORIES",
            crate::external::content::responses::RawContentRequestSuccess::Thread(_) => "THREAD",
            crate::external::content::responses::RawContentRequestSuccess::Threads(_) => "THREADS",
            crate::external::content::responses::RawContentRequestSuccess::Comment(_) => "COMMENT",
            crate::external::content::responses::RawContentRequestSuccess::Comments(_) =>
                "COMMENTS",
            crate::external::content::responses::RawContentRequestSuccess::User(_) => "USER",
            crate::external::content::responses::RawContentRequestSuccess::Users(_) => "USERS",
        }
    }
}

impl Tagged for crate::external::content::responses::ContentRequestSuccess {
    open spec fn tag_name(&self) -> Seq<char> {
        match self {
            crate::external::content::responses::ContentRequestSuccess::Category(_) => "CATEGORY"@,
            crate::external::content::responses::ContentRequestSuccess::Categories(_) =>
                "CATEGORIES"@,
            crate::external::content::responses::ContentRequestSuccess::Thread(_) => "THREAD"@,
            crate::external::content::responses::ContentRequestSuccess::Threads(_) => "THREADS"@,
            crate::external::content::responses::ContentRequestSuccess::Comment(_) => "COMMENT"@,
            crate::external::content::responses::ContentRequestSuccess::Comments(_) => "COMMENTS"@,
            crate::external::content::responses::ContentRequestSuccess::User(_) => "USER"@,
            crate::external::content::responses::ContentRequestSuccess::Users(_) => "USERS"@,
        }
    }

    fn tag(&self) -> (name: &'static str) {
        match self {
            crate::external::content::responses::ContentRequestSuccess::Category(_) => "CATEGORY",
            crate::external::content::responses::ContentRequestSuccess::Categories(_) =>
                "CATEGORIES",
            crate::external::content::responses::ContentRequestSuccess::Thread(_) => "THREAD",
            crate::external::content::responses::ContentRequestSuccess::Threads(_) => "THREADS",
            crate::external::content::responses::ContentRequestSuccess::Comment(_) => "COMMENT",
            crate::external::content::responses::ContentRequestSuccess::Comments(_) => "COMMENTS",
            crate::external::content::responses::ContentRequestSuccess::User(_) => "USER",
            crate::external::content::responses::ContentRequestSuccess::Users(_) => "USERS",
        }
    }
}

impl Tagged for crate::external::content::responses::ContentRequestError {
    open spec fn tag_name(&self) -> Seq<char> {
        match self {
            crate::external::content::responses::ContentRequestError::Hidden => "HIDDEN"@,
            crate::external::content::responses::ContentRequestError::InvalidId => "INVALID_ID"@,
            crate::external::content::responses::ContentRequestError::MissingToken =>
                "MISSING_TOKEN"@,
            crate::external::content::responses::ContentRequestError::InvalidToken =>
                "INVALID_TOKEN"@,
            crate::external::content::responses::ContentRequestError::InvalidQuery =>
                "INVALID_QUERY"@,
        }
    }

    fn tag(&self) -> (name: &'static str) {
        match self {
            crate::external::content::responses::ContentRequestError::Hidden => "HIDDEN",
            crate::external::content::responses::ContentRequestError::InvalidId => "INVALID_ID",
            crate::external::content::responses::ContentRequestError::MissingToken =>
                "MISSING_TOKEN",
            crate::external::content::responses::ContentRequestError::InvalidToken =>
                "INVALID_TOKEN",
            crate::external::content::responses::ContentRequestError::InvalidQuery =>
                "INVALID_QUERY",
        }
    }
}

impl crate::external::content::responses::ContentRequestError {
    /// The variant that `tag` names, if it names one.
    pub fn from_tag(tag: &str) -> (found: Option<Self>)
        ensures
            match found {
                Some(value) => value.tag_name() == tag@,
                None => forall|value: Self| value.tag_name() != tag@,
            },
    {
        if texts_equal(tag, "HIDDEN") {
            Some(crate::external::content::responses::ContentRequestError::Hidden)
        } else if texts_equal(tag, "INVALID_ID") {
            Some(crate::external::content::responses::ContentRequestError::InvalidId)
        } else if texts_equal(tag, "MISSING_TOKEN") {
            Some(crate::external::content::responses::ContentRequestError::MissingToken)
        } else if texts_equal(tag, "INVALID_TOKEN") {
            Some(crate::external::content::responses::ContentRequestError::InvalidToken)
        } else if texts_equal(tag, "INVALID_QUERY") {
            Some(crate::external::content::responses::ContentRequestError::InvalidQuery)
        } else {
            None
        }
    }

    /// No two variants have the same name, so a name that is written and
    /// read back gives the variant that wrote it.
    pub proof fn lemma_tag_names_differ(self, other: Self)
        ensures
            self.tag_name() == other.tag_name() <==> self == other,
    {
        reveal_strlit("HIDDEN");
        reveal_strlit("INVALID_ID");
        reveal_strlit("MISSING_TOKEN");
        reveal_strlit("INVALID_TOKEN");
        reveal_strlit("INVALID_QUERY");
        assert("HIDDEN"@.len() == 6);
        assert("INVALID_ID"@.len() == 10);
        assert("MISSING_TOKEN"@.len() == 13);
        assert("INVALID_TOKEN"@.len() == 13);
        assert("INVALID_QUERY"@.len() == 13);
        assert("MISSING_TOKEN"@[0] != "INVALID_TOKEN"@[0]);
        assert("MISSING_TOKEN"@[0] != "INVALID_QUERY"@[0]);
        assert("INVALID_TOKEN"@[8] != "INVALID_QUERY"@[8]);
    }
}

impl Tagged for crate::valid::ValidationError {
    open spec fn tag_name(&self) -> Seq<char> {
        match self {
            crate::valid::ValidationError::InvalidUsername => "InvalidUsername"@,
            crate::valid::ValidationError::InvalidPassword => "InvalidPassword"@,
            crate::valid::ValidationError::InvalidId => "InvalidId"@,
            crate::valid::ValidationError::InvalidTitle => "InvalidTitle"@,
            crate::valid::ValidationError::InvalidDescription => "InvalidDescription"@,
            crate::valid::ValidationError::InvalidCommentContent => "InvalidCommentContent"@,
            crate::valid::ValidationError::InvalidEmail => "InvalidEmail"@,
            crate::valid::ValidationError::InvalidQuery => "InvalidQuery"@,
        }
    }

    fn tag(&self) -> (name: &'static str) {
        match self {
            crate::valid::ValidationError::InvalidUsername => "InvalidUsername",
            crate::valid::ValidationError::InvalidPassword => "InvalidPassword",
            crate::valid::ValidationError::InvalidId => "InvalidId",
            crate::valid::ValidationError::InvalidTitle => "InvalidTitle",
            crate::valid::ValidationError::InvalidDescription => "InvalidDescription",
            crate::valid::ValidationError::InvalidCommentContent => "InvalidCommentContent",
            crate::valid::ValidationError::InvalidEmail => "InvalidEmail",
            crate::valid::ValidationError::InvalidQuery => "InvalidQuery",
        }
    }
}

impl crate::valid::ValidationError {
    /// The variant that `tag` names, if it names one.
    pub fn from_tag(tag: &str) -> (found: Option<Self>)
        ensures
            match found {
                Some(value) => value.tag_name() == tag@,
                None => forall|value: Self| value.tag_name() != tag@,
            },
    {
        if texts_equal(tag, "InvalidUsername") {
            Some(crate::valid::ValidationError::InvalidUsername)
        } else if texts_equal(tag, "InvalidPassword") {
            Some(crate::valid::ValidationError::InvalidPassword)
        } else if texts_equal(tag, "InvalidId") {
            Some(crate::valid::ValidationError::InvalidId)
        } else if texts_equal(tag, "InvalidTitle") {
            Some(crate::valid::ValidationError::InvalidTitle)
        } else if texts_equal(tag, "InvalidDescription") {
            Some(crate::valid::ValidationError::InvalidDescription)
        } else if texts_equal(tag, "InvalidCommentContent") {
            Some(crate::valid::ValidationError::InvalidCommentContent)
        } else if texts_equal(tag, "InvalidEmail") {
            Some(crate::valid::ValidationError::InvalidEmail)
        } else if texts_equal(tag, "InvalidQuery") {
            Some(crate::valid::ValidationError::InvalidQuery)
        } else {
            None
        }
    }

    /// No two variants have the same name, so a name that is written and
    /// read back gives the variant that wrote it.
    pub proof fn lemma_tag_names_differ(self, other: Self)
        ensures
            self.tag_name() == other.tag_name() <==> self == other,
    {
        reveal_strlit("InvalidUsername");
        reveal_strlit("InvalidPassword");
        reveal_strlit("InvalidId");
        reveal_strlit("InvalidTitle");
        reveal_strlit("InvalidDescription");
        reveal_strlit("InvalidCommentContent");
        reveal_strlit("InvalidEmail");
        reveal_strlit("InvalidQuery");
        assert("InvalidUsername"@.len() == 15);
        assert("InvalidPassword"@.len() == 15);
        assert("InvalidId"@.len() == 9);
        assert("InvalidTitle"@.len() == 12);
        assert("InvalidDescription"@.len() == 18);
        assert("InvalidCommentContent"@.len() == 21);
        assert("InvalidEmail"@.len() == 12);
        assert("InvalidQuery"@.len() == 12);
        assert("InvalidUsername"@[7] != "InvalidPassword"@[7]);
        assert("InvalidTitle"@[7] != "InvalidEmail"@[7]);
        assert("InvalidTitle"@[7] != "InvalidQuery"@[7]);
        assert("InvalidEmail"@[7] != "InvalidQuery"@[7]);
    }
}

/// Checking an administrator's request keeps the name of its variant.
pub proof fn lemma_admin_request_keeps_tag<'a>(
    value: crate::admin::requests::AdminRequest,
    raw: crate::admin::requests::RawAdminRequest<'a>,
)
    requires
        value.made_of(raw),
    ensures
        value.tag_name() == raw.tag_name(),
{
}

/// Checking a request to the auth-service keeps the name of its variant.
pub proof fn lemma_auth_request_keeps_tag<'a>(
    value: crate::auth::requests::AuthRequest,
    raw: crate::external::auth::requests::AuthRequest<'a>,
)
    requires
        value.made_of(raw),
    ensures
        value.tag_name() == raw.tag_name(),
{
}

/// Checking a request to the content-database keeps the name of its variant.
pub proof fn lemma_content_request_keeps_tag<'a>(
    value: crate::content::requests::ContentRequest,
    raw: crate::content::requests::RawContentRequest<'a>,
)
    requires
        value.made_of(raw),
    ensures
        value.tag_name() == raw.tag_name(),
{
}

/// Checking a response of the content-database keeps the name of its variant.
pub proof fn lemma_content_success_keeps_tag<'a>(
    value: crate::content::responses::ContentSuccess,
    raw: crate::content::responses::RawContentSuccess<'a>,
)
    requires
        value.made_of(raw),
    ensures
        value.tag_name() == raw.tag_name(),
{
}

/// Checking a client's request to the content-database keeps the name of its variant.
pub proof fn lemma_external_content_request_keeps_tag<'a>(
    value: crate::external::content::requests::ContentRequests<'a>,
    raw: crate::external::content::requests::RawContentRequests<'a>,
)
    requires
        value.made_of(raw),
    ensures
        value.tag_name() == raw.tag_name(),
{
}

/// Checking a response to a client's request to the content-database keeps the name of its variant.
pub proof fn lemma_external_content_success_keeps_tag<'a>(
    value: crate::external::content::responses::ContentRequestSuccess,
    raw: crate::external::content::responses::RawContentRequestSuccess<'a>,
)
    requires
        value.made_of(raw),
    ensures
        value.tag_name() == raw.tag_name(),
{
}

} // verus!

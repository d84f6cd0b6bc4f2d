//! The requests a user can make to the content-database
//!
//! Every payload comes in two shapes: a raw one, as it is read off the wire,
//! and a valid one, which only a conversion that checked every field hands
//! out.

use vstd::prelude::*;
use crate::valid::convert::{
    failure, first_failure, is_kept, keeps, keeps_optional, kept_optional,
    lemma_optional_round_trip, lemma_required_round_trip, optional, optional_failure,
    plain_optional, required, same, same_id, same_optional, same_optional_id, same_optional_text,
    same_text, written, written_optional, FromRaw,
};
use crate::valid::fields::{CommentContent, Description, QueryStr, Title, Username};
use crate::valid::ids::{CategoryId, CommentId, ThreadId, UserId};
use crate::valid::rules::is_plain;
use crate::valid::ValidationError;

verus! {

/// The requests to the content-database, as they come off the wire.
#[derive(Clone, Copy, PartialEq, Debug)]
pub enum RawContentRequest<'a> {
    AddUser(RawAddUserPayload<'a>),
    EditUser(RawEditUserPayload<'a>),
    AddCategory(RawAddCategoryPayload<'a>),
    EditCategory(RawEditCategoryPayload<'a>),
    HideCategory(RawHideCategoryPayload),
    AddThread(RawAddThreadPayload<'a>),
    EditThread(RawEditThreadPayload<'a>),
    HideThread(RawHideThreadPayload),
    AddComment(RawAddCommentPayload<'a>),
    EditComment(RawEditCommentPayload<'a>),
    HideComment(RawHideCommentPayload),
}

/// The requests to the content-database, with every payload checked.
#[derive(PartialEq, Debug)]
pub enum ContentRequest {
    AddUser(AddUserPayload),
    EditUser(EditUserPayload),
    AddCategory(AddCategoryPayload),
    EditCategory(EditCategoryPayload),
    HideCategory(HideCategoryPayload),
    AddThread(AddThreadPayload),
    EditThread(EditThreadPayload),
    HideThread(HideThreadPayload),
    AddComment(AddCommentPayload),
    EditComment(EditCommentPayload),
    HideComment(HideCommentPayload),
}

impl<'a> FromRaw<RawContentRequest<'a>> for ContentRequest {
    open spec fn refusal(raw: RawContentRequest<'a>) -> Option<ValidationError> {
        match raw {
            RawContentRequest::AddUser(p) => AddUserPayload::refusal(p),
            RawContentRequest::EditUser(p) => EditUserPayload::refusal(p),
            RawContentRequest::AddCategory(p) => AddCategoryPayload::refusal(p),
            RawContentRequest::EditCategory(p) => EditCategoryPayload::refusal(p),
            RawContentRequest::HideCategory(p) => HideCategoryPayload::refusal(p),
            RawContentRequest::AddThread(p) => AddThreadPayload::refusal(p),
            RawContentRequest::EditThread(p) => EditThreadPayload::refusal(p),
            RawContentRequest::HideThread(p) => HideThreadPayload::refusal(p),
            RawContentRequest::AddComment(p) => AddCommentPayload::refusal(p),
            RawContentRequest::EditComment(p) => EditCommentPayload::refusal(p),
            RawContentRequest::HideComment(p) => HideCommentPayload::refusal(p),
        }
    }

    open spec fn made_of(&self, raw: RawContentRequest<'a>) -> bool {
        match (*self, raw) {
            (ContentRequest::AddUser(v), RawContentRequest::AddUser(p)) => v.made_of(p),
            (ContentRequest::EditUser(v), RawContentRequest::EditUser(p)) => v.made_of(p),
            (ContentRequest::AddCategory(v), RawContentRequest::AddCategory(p)) => v.made_of(p),
            (ContentRequest::EditCategory(v), RawContentRequest::EditCategory(p)) => v.made_of(p),
            (ContentRequest::HideCategory(v), RawContentRequest::HideCategory(p)) => v.made_of(p),
            (ContentRequest::AddThread(v), RawContentRequest::AddThread(p)) => v.made_of(p),
            (ContentRequest::EditThread(v), RawContentRequest::EditThread(p)) => v.made_of(p),
            (ContentRequest::HideThread(v), RawContentRequest::HideThread(p)) => v.made_of(p),
            (ContentRequest::AddComment(v), RawContentRequest::AddComment(p)) => v.made_of(p),
            (ContentRequest::EditComment(v), RawContentRequest::EditComment(p)) => v.made_of(p),
            (ContentRequest::HideComment(v), RawContentRequest::HideComment(p)) => v.made_of(p),
            _ => false,
        }
    }

    fn from_raw(raw: RawContentRequest<'a>) -> (made: Result<Self, ValidationError>) {
        Self::try_from(raw)
    }
}

impl ContentRequest {
    /// Converts the payload of whichever variant `raw` is, and keeps the
    /// variant.
    pub fn try_from<'a>(raw: RawContentRequest<'a>) -> (made: Result<Self, ValidationError>)
        ensures
            match made {
                Ok(value) => Self::refusal(raw) is None && value.made_of(raw),
                Err(reason) => Self::refusal(raw) == Some(reason),
            },
    {
        match raw {
            RawContentRequest::AddUser(p) => match AddUserPayload::try_from(p) {
                Ok(v) => Ok(ContentRequest::AddUser(v)),
                Err(reason) => Err(reason),
            },
            RawContentRequest::EditUser(p) => match EditUserPayload::try_from(p) {
                Ok(v) => Ok(ContentRequest::EditUser(v)),
                Err(reason) => Err(reason),
            },
            RawContentRequest::AddCategory(p) => match AddCategoryPayload::try_from(p) {
                Ok(v) => Ok(ContentRequest::AddCategory(v)),
                Err(reason) => Err(reason),
            },
            RawContentRequest::EditCategory(p) => match EditCategoryPayload::try_from(p) {
                Ok(v) => Ok(ContentRequest::EditCategory(v)),
                Err(reason) => Err(reason),
            },
            RawContentRequest::HideCategory(p) => match HideCategoryPayload::try_from(p) {
                Ok(v) => Ok(ContentRequest::HideCategory(v)),
                Err(reason) => Err(reason),
            },
            RawContentRequest::AddThread(p) => match AddThreadPayload::try_from(p) {
                Ok(v) => Ok(ContentRequest::AddThread(v)),
                Err(reason) => Err(reason),
            },
            RawContentRequest::EditThread(p) => match EditThreadPayload::try_from(p) {
                Ok(v) => Ok(ContentRequest::EditThread(v)),
                Err(reason) => Err(reason),
            },
            RawContentRequest::HideThread(p) => match HideThreadPayload::try_from(p) {
                Ok(v) => Ok(ContentRequest::HideThread(v)),
                Err(reason) => Err(reason),
            },
            RawContentRequest::AddComment(p) => match AddCommentPayload::try_from(p) {
                Ok(v) => Ok(ContentRequest::AddComment(v)),
                Err(reason) => Err(reason),
            },
            RawContentRequest::EditComment(p) => match EditCommentPayload::try_from(p) {
                Ok(v) => Ok(ContentRequest::EditComment(v)),
                Err(reason) => Err(reason),
            },
            RawContentRequest::HideComment(p) => match HideCommentPayload::try_from(p) {
                Ok(v) => Ok(ContentRequest::HideComment(v)),
                Err(reason) => Err(reason),
            },
        }
    }
}

/// A request for a user, as it comes off the wire: nothing in it has been checked.
#[derive(Clone, Copy, PartialEq, Debug)]
pub struct RawGetUserPayload {
    pub id: u32,
}

/// A request for a user, every field of which has passed its rule.
#[derive(PartialEq, Debug)]
pub struct GetUserPayload {
    pub id: UserId,
}

impl FromRaw<RawGetUserPayload> for GetUserPayload {
    open spec fn refusal(raw: RawGetUserPayload) -> Option<ValidationError> {
        None
    }

    open spec fn made_of(&self, raw: RawGetUserPayload) -> bool {
        &&& self.id@ == raw.id
    }

    fn from_raw(raw: RawGetUserPayload) -> (made: Result<Self, ValidationError>) {
        Self::try_from(raw)
    }
}

impl GetUserPayload {
    /// Converts the raw payload field by field, in the order of declaration:
    /// the first field that fails its rule gives the reason.
    /// No field of it is held to a rule, so the conversion always succeeds.
    pub fn try_from(raw: RawGetUserPayload) -> (made: Result<Self, ValidationError>)
        ensures
            match made {
                Ok(value) => Self::refusal(raw) is None && value.made_of(raw),
                Err(reason) => Self::refusal(raw) == Some(reason),
            },
    {
        let id = UserId::from(raw.id);
        Ok(GetUserPayload { id })
    }

    /// Whether every text in the payload is one that passed its rule.
    pub open spec fn well_formed(&self) -> bool {
        true
    }

    /// Whether no text in the payload holds a special character.
    pub open spec fn plain(&self) -> bool {
        true
    }

    /// Whether `raw` is what the payload is written as on the wire.
    pub open spec fn written_as(&self, raw: RawGetUserPayload) -> bool {
        &&& raw.id == self.id@
    }

    /// Whether the two payloads hold the same in every field.
    pub open spec fn same_as(&self, other: Self) -> bool {
        &&& self.id@ == other.id@
    }

    /// A payload without special characters that is written on the wire and
    /// converted again is not refused, and comes out the same.
    pub proof fn lemma_round_trip(self, raw: RawGetUserPayload, again: Self)
        requires
            self.well_formed(),
            self.plain(),
            self.written_as(raw),
            again.made_of(raw),
        ensures
            Self::refusal(raw) is None,
            self.same_as(again),
    {
    }
}

/// A request to add a user, as it comes off the wire: nothing in it has been checked.
#[derive(Clone, Copy, PartialEq, Debug)]
pub struct RawAddUserPayload<'a> {
    pub id: u32,
    pub username: &'a str,
}

/// A request to add a user, every field of which has passed its rule.
#[derive(PartialEq, Debug)]
pub struct AddUserPayload {
    pub id: UserId,
    pub username: Username,
}

impl<'a> FromRaw<RawAddUserPayload<'a>> for AddUserPayload {
    open spec fn refusal(raw: RawAddUserPayload<'a>) -> Option<ValidationError> {
        failure::<Username>(raw.username@)
    }

    open spec fn made_of(&self, raw: RawAddUserPayload<'a>) -> bool {
        &&& self.id@ == raw.id
        &&& keeps(self.username, raw.username)
    }

    fn from_raw(raw: RawAddUserPayload<'a>) -> (made: Result<Self, ValidationError>) {
        Self::try_from(raw)
    }
}

impl AddUserPayload {
    /// Converts the raw payload field by field, in the order of declaration:
    /// the first field that fails its rule gives the reason.
    pub fn try_from<'a>(raw: RawAddUserPayload<'a>) -> (made: Result<Self, ValidationError>)
        ensures
            match made {
                Ok(value) => Self::refusal(raw) is None && value.made_of(raw),
                Err(reason) => Self::refusal(raw) == Some(reason),
            },
    {
        let username = match required::<Username>(raw.username) {
            Ok(value) => value,
            Err(reason) => {
                return Err(reason);
            },
        };
        let id = UserId::from(raw.id);
        Ok(AddUserPayload { id, username })
    }

    /// Whether every text in the payload is one that passed its rule.
    pub open spec fn well_formed(&self) -> bool {
        &&& is_kept::<Username>(self.username@)
    }

    /// Whether no text in the payload holds a special character.
    pub open spec fn plain(&self) -> bool {
        &&& is_plain(self.username@)
    }

    /// Whether `raw` is what the payload is written as on the wire.
    pub open spec fn written_as<'a>(&self, raw: RawAddUserPayload<'a>) -> bool {
        &&& raw.id == self.id@
        &&& written(self.username, raw.username)
    }

    /// Whether the two payloads hold the same in every field.
    pub open spec fn same_as(&self, other: Self) -> bool {
        &&& self.id@ == other.id@
        &&& same(self.username, other.username)
    }

    /// A payload without special characters that is written on the wire and
    /// converted again is not refused, and comes out the same.
    pub proof fn lemma_round_trip<'a>(self, raw: RawAddUserPayload<'a>, again: Self)
        requires
            self.well_formed(),
            self.plain(),
            self.written_as(raw),
            again.made_of(raw),
        ensures
            Self::refusal(raw) is None,
            self.same_as(again),
    {
        lemma_required_round_trip::<Username>(self.username, raw.username, again.username);
    }
}

/// A request to edit a user, as it comes off the wire: nothing in it has been checked.
#[derive(Clone, Copy, PartialEq, Debug)]
pub struct RawEditUserPayload<'a> {
    pub id: u32,
    pub description: Option<&'a str>,
    pub avatar: Option<&'a str>,
}

/// A request to edit a user, every field of which has passed its rule.
#[derive(PartialEq, Debug)]
pub struct EditUserPayload {
    pub id: UserId,
    pub description: Option<Description>,
    pub avatar: Option<String>,
}

impl<'a> FromRaw<RawEditUserPayload<'a>> for EditUserPayload {
    open spec fn refusal(raw: RawEditUserPayload<'a>) -> Option<ValidationError> {
        optional_failure::<Description>(raw.description)
    }

    open spec fn made_of(&self, raw: RawEditUserPayload<'a>) -> bool {
        &&& self.id@ == raw.id
        &&& keeps_optional(self.description, raw.description)
        &&& same_text(self.avatar, raw.avatar)
    }

    fn from_raw(raw: RawEditUserPayload<'a>) -> (made: Result<Self, ValidationError>) {
        Self::try_from(raw)
    }
}

impl EditUserPayload {
    /// Converts the raw payload field by field, in the order of declaration:
    /// the first field that fails its rule gives the reason.
    pub fn try_from<'a>(raw: RawEditUserPayload<'a>) -> (made: Result<Self, ValidationError>)
        ensures
            match made {
                Ok(value) => Self::refusal(raw) is None && value.made_of(raw),
                Err(reason) => Self::refusal(raw) == Some(reason),
            },
    {
        let description = match optional::<Description>(raw.description) {
            Ok(value) => value,
            Err(reason) => {
                return Err(reason);
            },
        };
        let id = UserId::from(raw.id);
        let avatar = match raw.avatar {
            Some(text) => Some(text.to_owned()),
            None => None,
        };
        Ok(EditUserPayload { id, description, avatar })
    }

    /// Whether every text in the payload is one that passed its rule.
    pub open spec fn well_formed(&self) -> bool {
        &&& kept_optional(self.description)
    }

    /// Whether no text in the payload holds a special character.
    pub open spec fn plain(&self) -> bool {
        &&& plain_optional(self.description)
    }

    /// Whether `raw` is what the payload is written as on the wire.
    pub open spec fn written_as<'a>(&self, raw: RawEditUserPayload<'a>) -> bool {
        &&& raw.id == self.id@
        &&& written_optional(self.description, raw.description)
        &&& same_text(self.avatar, raw.avatar)
    }

    /// Whether the two payloads hold the same in every field.
    pub open spec fn same_as(&self, other: Self) -> bool {
        &&& self.id@ == other.id@
        &&& same_optional(self.description, other.description)
        &&& same_optional_text(self.avatar, other.avatar)
    }

    /// A payload without special characters that is written on the wire and
    /// converted again is not refused, and comes out the same.
    pub proof fn lemma_round_trip<'a>(self, raw: RawEditUserPayload<'a>, again: Self)
        requires
            self.well_formed(),
            self.plain(),
            self.written_as(raw),
            again.made_of(raw),
        ensures
            Self::refusal(raw) is None,
            self.same_as(again),
    {
        lemma_optional_round_trip::<Description>(
            self.description,
            raw.description,
            again.description,
        );
    }
}

/// A request for a category, as it comes off the wire: nothing in it has been checked.
#[derive(Clone, Copy, PartialEq, Debug)]
pub struct RawGetCategoryPayload {
    pub id: u32,
    pub include_hidden: bool,
}

/// A request for a category, every field of which has passed its rule.
#[derive(PartialEq, Debug)]
pub struct GetCategoryPayload {
    pub id: CategoryId,
    pub include_hidden: bool,
}

impl FromRaw<RawGetCategoryPayload> for GetCategoryPayload {
    open spec fn refusal(raw: RawGetCategoryPayload) -> Option<ValidationError> {
        None
    }

    open spec fn made_of(&self, raw: RawGetCategoryPayload) -> bool {
        &&& self.id@ == raw.id
        &&& self.include_hidden == raw.include_hidden
    }

    fn from_raw(raw: RawGetCategoryPayload) -> (made: Result<Self, ValidationError>) {
        Self::try_from(raw)
    }
}

impl GetCategoryPayload {
    /// Converts the raw payload field by field, in the order of declaration:
    /// the first field that fails its rule gives the reason.
    /// No field of it is held to a rule, so the conversion always succeeds.
    pub fn try_from(raw: RawGetCategoryPayload) -> (made: Result<Self, ValidationError>)
        ensures
            match made {
                Ok(value) => Self::refusal(raw) is None && value.made_of(raw),
                Err(reason) => Self::refusal(raw) == Some(reason),
            },
    {
        let id = CategoryId::from(raw.id);
        let include_hidden = raw.include_hidden;
        Ok(GetCategoryPayload { id, include_hidden })
    }

    /// Whether every text in the payload is one that passed its rule.
    pub open spec fn well_formed(&self) -> bool {
        true
    }

    /// Whether no text in the payload holds a special character.
    pub open spec fn plain(&self) -> bool {
        true
    }

    /// Whether `raw` is what the payload is written as on the wire.
    pub open spec fn written_as(&self, raw: RawGetCategoryPayload) -> bool {
        &&& raw.id == self.id@
        &&& raw.include_hidden == self.include_hidden
    }

    /// Whether the two payloads hold the same in every field.
    pub open spec fn same_as(&self, other: Self) -> bool {
        &&& self.id@ == other.id@
        &&& self.include_hidden == other.include_hidden
    }

    /// A payload without special characters that is written on the wire and
    /// converted again is not refused, and comes out the same.
    pub proof fn lemma_round_trip(self, raw: RawGetCategoryPayload, again: Self)
        requires
            self.well_formed(),
            self.plain(),
            self.written_as(raw),
            again.made_of(raw),
        ensures
            Self::refusal(raw) is None,
            self.same_as(again),
    {
    }
}

/// A request to add a category, as it comes off the wire: nothing in it has been checked.
#[derive(Clone, Copy, PartialEq, Debug)]
pub struct RawAddCategoryPayload<'a> {
    pub title: &'a str,
    pub description: &'a str,
}

/// A request to add a category, every field of which has passed its rule.
#[derive(PartialEq, Debug)]
pub struct AddCategoryPayload {
    pub title: Title,
    pub description: Description,
}

impl<'a> FromRaw<RawAddCategoryPayload<'a>> for AddCategoryPayload {
    open spec fn refusal(raw: RawAddCategoryPayload<'a>) -> Option<ValidationError> {
        first_failure(
            failure::<Title>(raw.title@),
            failure::<Description>(raw.description@),
        )
    }

    open spec fn made_of(&self, raw: RawAddCategoryPayload<'a>) -> bool {
        &&& keeps(self.title, raw.title)
        &&& keeps(self.description, raw.description)
    }

    fn from_raw(raw: RawAddCategoryPayload<'a>) -> (made: Result<Self, ValidationError>) {
        Self::try_from(raw)
    }
}

impl AddCategoryPayload {
    /// Converts the raw payload field by field, in the order of declaration:
    /// the first field that fails its rule gives the reason.
    pub fn try_from<'a>(raw: RawAddCategoryPayload<'a>) -> (made: Result<Self, ValidationError>)
        ensures
            match made {
                Ok(value) => Self::refusal(raw) is None && value.made_of(raw),
                Err(reason) => Self::refusal(raw) == Some(reason),
            },
    {
        let title = match required::<Title>(raw.title) {
            Ok(value) => value,
            Err(reason) => {
                return Err(reason);
            },
        };
        let description = match required::<Description>(raw.description) {
            Ok(value) => value,
            Err(reason) => {
                return Err(reason);
            },
        };
        Ok(AddCategoryPayload { title, description })
    }

    /// Whether every text in the payload is one that passed its rule.
    pub open spec fn well_formed(&self) -> bool {
        &&& is_kept::<Title>(self.title@)
        &&& is_kept::<Description>(self.description@)
    }

    /// Whether no text in the payload holds a special character.
    pub open spec fn plain(&self) -> bool {
        &&& is_plain(self.title@)
        &&& is_plain(self.description@)
    }

    /// Whether `raw` is what the payload is written as on the wire.
    pub open spec fn written_as<'a>(&self, raw: RawAddCategoryPayload<'a>) -> bool {
        &&& written(self.title, raw.title)
        &&& written(self.description, raw.description)
    }

    /// Whether the two payloads hold the same in every field.
    pub open spec fn same_as(&self, other: Self) -> bool {
        &&& same(self.title, other.title)
        &&& same(self.description, other.description)
    }

    /// A payload without special characters that is written on the wire and
    /// converted again is not refused, and comes out the same.
    pub proof fn lemma_round_trip<'a>(self, raw: RawAddCategoryPayload<'a>, again: Self)
        requires
            self.well_formed(),
            self.plain(),
            self.written_as(raw),
            again.made_of(raw),
        ensures
            Self::refusal(raw) is None,
            self.same_as(again),
    {
        lemma_required_round_trip::<Title>(self.title, raw.title, again.title);
        lemma_required_round_trip::<Description>(
            self.description,
            raw.description,
            again.description,
        );
    }
}

/// A request to edit a category, as it comes off the wire: nothing in it has been checked.
#[derive(Clone, Copy, PartialEq, Debug)]
pub struct RawEditCategoryPayload<'a> {
    pub id: u32,
    pub title: Option<&'a str>,
    pub description: Option<&'a str>,
}

/// A request to edit a category, every field of which has passed its rule.
#[derive(PartialEq, Debug)]
pub struct EditCategoryPayload {
    pub id: CategoryId,
    pub title: Option<Title>,
    pub description: Option<Description>,
}

impl<'a> FromRaw<RawEditCategoryPayload<'a>> for EditCategoryPayload {
    open spec fn refusal(raw: RawEditCategoryPayload<'a>) -> Option<ValidationError> {
        first_failure(
            optional_failure::<Title>(raw.title),
            optional_failure::<Description>(raw.description),
        )
    }

    open spec fn made_of(&self, raw: RawEditCategoryPayload<'a>) -> bool {
        &&& self.id@ == raw.id
        &&& keeps_optional(self.title, raw.title)
        &&& keeps_optional(self.description, raw.description)
    }

    fn from_raw(raw: RawEditCategoryPayload<'a>) -> (made: Result<Self, ValidationError>) {
        Self::try_from(raw)
    }
}

impl EditCategoryPayload {
    /// Converts the raw payload field by field, in the order of declaration:
    /// the first field that fails its rule gives the reason.
    pub fn try_from<'a>(raw: RawEditCategoryPayload<'a>) -> (made: Result<Self, ValidationError>)
        ensures
            match made {
                Ok(value) => Self::refusal(raw) is None && value.made_of(raw),
                Err(reason) => Self::refusal(raw) == Some(reason),
            },
    {
        let title = match optional::<Title>(raw.title) {
            Ok(value) => value,
            Err(reason) => {
                return Err(reason);
            },
        };
        let description = match optional::<Description>(raw.description) {
            Ok(value) => value,
            Err(reason) => {
                return Err(reason);
            },
        };
        let id = CategoryId::from(raw.id);
        Ok(EditCategoryPayload { id, title, description })
    }

    /// Whether every text in the payload is one that passed its rule.
    pub open spec fn well_formed(&self) -> bool {
        &&& kept_optional(self.title)
        &&& kept_optional(self.description)
    }

    /// Whether no text in the payload holds a special character.
    pub open spec fn plain(&self) -> bool {
        &&& plain_optional(self.title)
        &&& plain_optional(self.description)
    }

    /// Whether `raw` is what the payload is written as on the wire.
    pub open spec fn written_as<'a>(&self, raw: RawEditCategoryPayload<'a>) -> bool {
        &&& raw.id == self.id@
        &&& written_optional(self.title, raw.title)
        &&& written_optional(self.description, raw.description)
    }

    /// Whether the two payloads hold the same in every field.
    pub open spec fn same_as(&self, other: Self) -> bool {
        &&& self.id@ == other.id@
        &&& same_optional(self.title, other.title)
        &&& same_optional(self.description, other.description)
    }

    /// A payload without special characters that is written on the wire and
    /// converted again is not refused, and comes out the same.
    pub proof fn lemma_round_trip<'a>(self, raw: RawEditCategoryPayload<'a>, again: Self)
        requires
            self.well_formed(),
            self.plain(),
            self.written_as(raw),
            again.made_of(raw),
        ensures
            Self::refusal(raw) is None,
            self.same_as(again),
    {
        lemma_optional_round_trip::<Title>(self.title, raw.title, again.title);
        lemma_optional_round_trip::<Description>(
            self.description,
            raw.description,
            again.description,
        );
    }
}

/// A request to hide or show a category, as it comes off the wire: nothing in it has been checked.
#[derive(Clone, Copy, PartialEq, Debug)]
pub struct RawHideCategoryPayload {
    pub id: u32,
    pub hide: bool,
}

/// A request to hide or show a category, every field of which has passed its rule.
#[derive(PartialEq, Debug)]
pub struct HideCategoryPayload {
    pub id: CategoryId,
    pub hide: bool,
}

impl FromRaw<RawHideCategoryPayload> for HideCategoryPayload {
    open spec fn refusal(raw: RawHideCategoryPayload) -> Option<ValidationError> {
        None
    }

    open spec fn made_of(&self, raw: RawHideCategoryPayload) -> bool {
        &&& self.id@ == raw.id
        &&& self.hide == raw.hide
    }

    fn from_raw(raw: RawHideCategoryPayload) -> (made: Result<Self, ValidationError>) {
        Self::try_from(raw)
    }
}

impl HideCategoryPayload {
    /// Converts the raw payload field by field, in the order of declaration:
    /// the first field that fails its rule gives the reason.
    /// No field of it is held to a rule, so the conversion always succeeds.
    pub fn try_from(raw: RawHideCategoryPayload) -> (made: Result<Self, ValidationError>)
        ensures
            match made {
                Ok(value) => Self::refusal(raw) is None && value.made_of(raw),
                Err(reason) => Self::refusal(raw) == Some(reason),
            },
    {
        let id = CategoryId::from(raw.id);
        let hide = raw.hide;
        Ok(HideCategoryPayload { id, hide })
    }

    /// Whether every text in the payload is one that passed its rule.
    pub open spec fn well_formed(&self) -> bool {
        true
    }

    /// Whether no text in the payload holds a special character.
    pub open spec fn plain(&self) -> bool {
        true
    }

    /// Whether `raw` is what the payload is written as on the wire.
    pub open spec fn written_as(&self, raw: RawHideCategoryPayload) -> bool {
        &&& raw.id == self.id@
        &&& raw.hide == self.hide
    }

    /// Whether the two payloads hold the same in every field.
    pub open spec fn same_as(&self, other: Self) -> bool {
        &&& self.id@ == other.id@
        &&& self.hide == other.hide
    }

    /// A payload without special characters that is written on the wire and
    /// converted again is not refused, and comes out the same.
    pub proof fn lemma_round_trip(self, raw: RawHideCategoryPayload, again: Self)
        requires
            self.well_formed(),
            self.plain(),
            self.written_as(raw),
            again.made_of(raw),
        ensures
            Self::refusal(raw) is None,
            self.same_as(again),
    {
    }
}

/// A request for a thread, as it comes off the wire: nothing in it has been checked.
#[derive(Clone, Copy, PartialEq, Debug)]
pub struct RawGetThreadPayload {
    pub id: u32,
    pub include_hidden: bool,
}

/// A request for a thread, every field of which has passed its rule.
#[derive(PartialEq, Debug)]
pub struct GetThreadPayload {
    pub id: ThreadId,
    pub include_hidden: bool,
}

impl FromRaw<RawGetThreadPayload> for GetThreadPayload {
    open spec fn refusal(raw: RawGetThreadPayload) -> Option<ValidationError> {
        None
    }

    open spec fn made_of(&self, raw: RawGetThreadPayload) -> bool {
        &&& self.id@ == raw.id
        &&& self.include_hidden == raw.include_hidden
    }

    fn from_raw(raw: RawGetThreadPayload) -> (made: Result<Self, ValidationError>) {
        Self::try_from(raw)
    }
}

impl GetThreadPayload {
    /// Converts the raw payload field by field, in the order of declaration:
    /// the first field that fails its rule gives the reason.
    /// No field of it is held to a rule, so the conversion always succeeds.
    pub fn try_from(raw: RawGetThreadPayload) -> (made: Result<Self, ValidationError>)
        ensures
            match made {
                Ok(value) => Self::refusal(raw) is None && value.made_of(raw),
                Err(reason) => Self::refusal(raw) == Some(reason),
            },
    {
        let id = ThreadId::from(raw.id);
        let include_hidden = raw.include_hidden;
        Ok(GetThreadPayload { id, include_hidden })
    }

    /// Whether every text in the payload is one that passed its rule.
    pub open spec fn well_formed(&self) -> bool {
        true
    }

    /// Whether no text in the payload holds a special character.
    pub open spec fn plain(&self) -> bool {
        true
    }

    /// Whether `raw` is what the payload is written as on the wire.
    pub open spec fn written_as(&self, raw: RawGetThreadPayload) -> bool {
        &&& raw.id == self.id@
        &&& raw.include_hidden == self.include_hidden
    }

    /// Whether the two payloads hold the same in every field.
    pub open spec fn same_as(&self, other: Self) -> bool {
        &&& self.id@ == other.id@
        &&& self.include_hidden == other.include_hidden
    }

    /// A payload without special characters that is written on the wire and
    /// converted again is not refused, and comes out the same.
    pub proof fn lemma_round_trip(self, raw: RawGetThreadPayload, again: Self)
        requires
            self.well_formed(),
            self.plain(),
            self.written_as(raw),
            again.made_of(raw),
        ensures
            Self::refusal(raw) is None,
            self.same_as(again),
    {
    }
}

/// A request for the threads of a category, as it comes off the wire: nothing
/// in it has been checked.
#[derive(Clone, Copy, PartialEq, Debug)]
pub struct RawGetThreadsPayload {
    pub id: u32,
    pub include_hidden: bool,
}

/// A request for the threads of a category, every field of which has passed its rule.
#[derive(PartialEq, Debug)]
pub struct GetThreadsPayload {
    pub id: CategoryId,
    pub include_hidden: bool,
}

impl FromRaw<RawGetThreadsPayload> for GetThreadsPayload {
    open spec fn refusal(raw: RawGetThreadsPayload) -> Option<ValidationError> {
        None
    }

    open spec fn made_of(&self, raw: RawGetThreadsPayload) -> bool {
        &&& self.id@ == raw.id
        &&& self.include_hidden == raw.include_hidden
    }

    fn from_raw(raw: RawGetThreadsPayload) -> (made: Result<Self, ValidationError>) {
        Self::try_from(raw)
    }
}

impl GetThreadsPayload {
    /// Converts the raw payload field by field, in the order of declaration:
    /// the first field that fails its rule gives the reason.
    /// No field of it is held to a rule, so the conversion always succeeds.
    pub fn try_from(raw: RawGetThreadsPayload) -> (made: Result<Self, ValidationError>)
        ensures
            match made {
                Ok(value) => Self::refusal(raw) is None && value.made_of(raw),
                Err(reason) => Self::refusal(raw) == Some(reason),
            },
    {
        let id = CategoryId::from(raw.id);
        let include_hidden = raw.include_hidden;
        Ok(GetThreadsPayload { id, include_hidden })
    }

    /// Whether every text in the payload is one that passed its rule.
    pub open spec fn well_formed(&self) -> bool {
        true
    }

    /// Whether no text in the payload holds a special character.
    pub open spec fn plain(&self) -> bool {
        true
    }

    /// Whether `raw` is what the payload is written as on the wire.
    pub open spec fn written_as(&self, raw: RawGetThreadsPayload) -> bool {
        &&& raw.id == self.id@
        &&& raw.include_hidden == self.include_hidden
    }

    /// Whether the two payloads hold the same in every field.
    pub open spec fn same_as(&self, other: Self) -> bool {
        &&& self.id@ == other.id@
        &&& self.include_hidden == other.include_hidden
    }

    /// A payload without special characters that is written on the wire and
    /// converted again is not refused, and comes out the same.
    pub proof fn lemma_round_trip(self, raw: RawGetThreadsPayload, again: Self)
        requires
            self.well_formed(),
            self.plain(),
            self.written_as(raw),
            again.made_of(raw),
        ensures
            Self::refusal(raw) is None,
            self.same_as(again),
    {
    }
}

/// A request to add a thread, as it comes off the wire: nothing in it has been checked.
#[derive(Clone, Copy, PartialEq, Debug)]
pub struct RawAddThreadPayload<'a> {
    pub category_id: u32,
    pub user_id: u32,
    pub title: &'a str,
    pub description: &'a str,
}

/// A request to add a thread, every field of which has passed its rule.
#[derive(PartialEq, Debug)]
pub struct AddThreadPayload {
    pub category_id: CategoryId,
    pub user_id: UserId,
    pub title: Title,
    pub description: Description,
}

impl<'a> FromRaw<RawAddThreadPayload<'a>> for AddThreadPayload {
    open spec fn refusal(raw: RawAddThreadPayload<'a>) -> Option<ValidationError> {
        first_failure(
            failure::<Title>(raw.title@),
            failure::<Description>(raw.description@),
        )
    }

    open spec fn made_of(&self, raw: RawAddThreadPayload<'a>) -> bool {
        &&& self.category_id@ == raw.category_id
        &&& self.user_id@ == raw.user_id
        &&& keeps(self.title, raw.title)
        &&& keeps(self.description, raw.description)
    }

    fn from_raw(raw: RawAddThreadPayload<'a>) -> (made: Result<Self, ValidationError>) {
        Self::try_from(raw)
    }
}

impl AddThreadPayload {
    /// Converts the raw payload field by field, in the order of declaration:
    /// the first field that fails its rule gives the reason.
    pub fn try_from<'a>(raw: RawAddThreadPayload<'a>) -> (made: Result<Self, ValidationError>)
        ensures
            match made {
                Ok(value) => Self::refusal(raw) is None && value.made_of(raw),
                Err(reason) => Self::refusal(raw) == Some(reason),
            },
    {
        let title = match required::<Title>(raw.title) {
            Ok(value) => value,
            Err(reason) => {
                return Err(reason);
            },
        };
        let description = match required::<Description>(raw.description) {
            Ok(value) => value,
            Err(reason) => {
                return Err(reason);
            },
        };
        let category_id = CategoryId::from(raw.category_id);
        let user_id = UserId::from(raw.user_id);
        Ok(AddThreadPayload { category_id, user_id, title, description })
    }

    /// Whether every text in the payload is one that passed its rule.
    pub open spec fn well_formed(&self) -> bool {
        &&& is_kept::<Title>(self.title@)
        &&& is_kept::<Description>(self.description@)
    }

    /// Whether no text in the payload holds a special character.
    pub open spec fn plain(&self) -> bool {
        &&& is_plain(self.title@)
        &&& is_plain(self.description@)
    }

    /// Whether `raw` is what the payload is written as on the wire.
    pub open spec fn written_as<'a>(&self, raw: RawAddThreadPayload<'a>) -> bool {
        &&& raw.category_id == self.category_id@
        &&& raw.user_id == self.user_id@
        &&& written(self.title, raw.title)
        &&& written(self.description, raw.description)
    }

    /// Whether the two payloads hold the same in every field.
    pub open spec fn same_as(&self, other: Self) -> bool {
        &&& self.category_id@ == other.category_id@
        &&& self.user_id@ == other.user_id@
        &&& same(self.title, other.title)
        &&& same(self.description, other.description)
    }

    /// A payload without special characters that is written on the wire and
    /// converted again is not refused, and comes out the same.
    pub proof fn lemma_round_trip<'a>(self, raw: RawAddThreadPayload<'a>, again: Self)
        requires
            self.well_formed(),
            self.plain(),
            self.written_as(raw),
            again.made_of(raw),
        ensures
            Self::refusal(raw) is None,
            self.same_as(again),
    {
        lemma_required_round_trip::<Title>(self.title, raw.title, again.title);
        lemma_required_round_trip::<Description>(
            self.description,
            raw.description,
            again.description,
        );
    }
}

/// A request to edit a thread, as it comes off the wire: nothing in it has been checked.
#[derive(Clone, Copy, PartialEq, Debug)]
pub struct RawEditThreadPayload<'a> {
    pub id: u32,
    pub title: Option<&'a str>,
    pub description: Option<&'a str>,
}

/// A request to edit a thread, every field of which has passed its rule.
#[derive(PartialEq, Debug)]
pub struct EditThreadPayload {
    pub id: ThreadId,
    pub title: Option<Title>,
    pub description: Option<Description>,
}

impl<'a> FromRaw<RawEditThreadPayload<'a>> for EditThreadPayload {
    open spec fn refusal(raw: RawEditThreadPayload<'a>) -> Option<ValidationError> {
        first_failure(
            optional_failure::<Title>(raw.title),
            optional_failure::<Description>(raw.description),
        )
    }

    open spec fn made_of(&self, raw: RawEditThreadPayload<'a>) -> bool {
        &&& self.id@ == raw.id
        &&& keeps_optional(self.title, raw.title)
        &&& keeps_optional(self.description, raw.description)
    }

    fn from_raw(raw: RawEditThreadPayload<'a>) -> (made: Result<Self, ValidationError>) {
        Self::try_from(raw)
    }
}

impl EditThreadPayload {
    /// Converts the raw payload field by field, in the order of declaration:
    /// the first field that fails its rule gives the reason.
    pub fn try_from<'a>(raw: RawEditThreadPayload<'a>) -> (made: Result<Self, ValidationError>)
        ensures
            match made {
                Ok(value) => Self::refusal(raw) is None && value.made_of(raw),
                Err(reason) => Self::refusal(raw) == Some(reason),
            },
    {
        let title = match optional::<Title>(raw.title) {
            Ok(value) => value,
            Err(reason) => {
                return Err(reason);
            },
        };
        let description = match optional::<Description>(raw.description) {
            Ok(value) => value,
            Err(reason) => {
                return Err(reason);
            },
        };
        let id = ThreadId::from(raw.id);
        Ok(EditThreadPayload { id, title, description })
    }

    /// Whether every text in the payload is one that passed its rule.
    pub open spec fn well_formed(&self) -> bool {
        &&& kept_optional(self.title)
        &&& kept_optional(self.description)
    }

    /// Whether no text in the payload holds a special character.
    pub open spec fn plain(&self) -> bool {
        &&& plain_optional(self.title)
        &&& plain_optional(self.description)
    }

    /// Whether `raw` is what the payload is written as on the wire.
    pub open spec fn written_as<'a>(&self, raw: RawEditThreadPayload<'a>) -> bool {
        &&& raw.id == self.id@
        &&& written_optional(self.title, raw.title)
        &&& written_optional(self.description, raw.description)
    }

    /// Whether the two payloads hold the same in every field.
    pub open spec fn same_as(&self, other: Self) -> bool {
        &&& self.id@ == other.id@
        &&& same_optional(self.title, other.title)
        &&& same_optional(self.description, other.description)
    }

    /// A payload without special characters that is written on the wire and
    /// converted again is not refused, and comes out the same.
    pub proof fn lemma_round_trip<'a>(self, raw: RawEditThreadPayload<'a>, again: Self)
        requires
            self.well_formed(),
            self.plain(),
            self.written_as(raw),
            again.made_of(raw),
        ensures
            Self::refusal(raw) is None,
            self.same_as(again),
    {
        lemma_optional_round_trip::<Title>(self.title, raw.title, again.title);
        lemma_optional_round_trip::<Description>(
            self.description,
            raw.description,
            again.description,
        );
    }
}

/// A request to hide or show a thread, as it comes off the wire: nothing in it has been checked.
#[derive(Clone, Copy, PartialEq, Debug)]
pub struct RawHideThreadPayload {
    pub id: u32,
    pub hide: bool,
}

/// A request to hide or show a thread, every field of which has passed its rule.
#[derive(PartialEq, Debug)]
pub struct HideThreadPayload {
    pub id: ThreadId,
    pub hide: bool,
}

impl FromRaw<RawHideThreadPayload> for HideThreadPayload {
    open spec fn refusal(raw: RawHideThreadPayload) -> Option<ValidationError> {
        None
    }

    open spec fn made_of(&self, raw: RawHideThreadPayload) -> bool {
        &&& self.id@ == raw.id
        &&& self.hide == raw.hide
    }

    fn from_raw(raw: RawHideThreadPayload) -> (made: Result<Self, ValidationError>) {
        Self::try_from(raw)
    }
}

impl HideThreadPayload {
    /// Converts the raw payload field by field, in the order of declaration:
    /// the first field that fails its rule gives the reason.
    /// No field of it is held to a rule, so the conversion always succeeds.
    pub fn try_from(raw: RawHideThreadPayload) -> (made: Result<Self, ValidationError>)
        ensures
            match made {
                Ok(value) => Self::refusal(raw) is None && value.made_of(raw),
                Err(reason) => Self::refusal(raw) == Some(reason),
            },
    {
        let id = ThreadId::from(raw.id);
        let hide = raw.hide;
        Ok(HideThreadPayload { id, hide })
    }

    /// Whether every text in the payload is one that passed its rule.
    pub open spec fn well_formed(&self) -> bool {
        true
    }

    /// Whether no text in the payload holds a special character.
    pub open spec fn plain(&self) -> bool {
        true
    }

    /// Whether `raw` is what the payload is written as on the wire.
    pub open spec fn written_as(&self, raw: RawHideThreadPayload) -> bool {
        &&& raw.id == self.id@
        &&& raw.hide == self.hide
    }

    /// Whether the two payloads hold the same in every field.
    pub open spec fn same_as(&self, other: Self) -> bool {
        &&& self.id@ == other.id@
        &&& self.hide == other.hide
    }

    /// A payload without special characters that is written on the wire and
    /// converted again is not refused, and comes out the same.
    pub proof fn lemma_round_trip(self, raw: RawHideThreadPayload, again: Self)
        requires
            self.well_formed(),
            self.plain(),
            self.written_as(raw),
            again.made_of(raw),
        ensures
            Self::refusal(raw) is None,
            self.same_as(again),
    {
    }
}

/// A request for a comment, as it comes off the wire: nothing in it has been checked.
#[derive(Clone, Copy, PartialEq, Debug)]
pub struct RawGetCommentPayload {
    pub id: u32,
    pub include_hidden: bool,
}

/// A request for a comment, every field of which has passed its rule.
#[derive(PartialEq, Debug)]
pub struct GetCommentPayload {
    pub id: CommentId,
    pub include_hidden: bool,
}

impl FromRaw<RawGetCommentPayload> for GetCommentPayload {
    open spec fn refusal(raw: RawGetCommentPayload) -> Option<ValidationError> {
        None
    }

    open spec fn made_of(&self, raw: RawGetCommentPayload) -> bool {
        &&& self.id@ == raw.id
        &&& self.include_hidden == raw.include_hidden
    }

    fn from_raw(raw: RawGetCommentPayload) -> (made: Result<Self, ValidationError>) {
        Self::try_from(raw)
    }
}

impl GetCommentPayload {
    /// Converts the raw payload field by field, in the order of declaration:
    /// the first field that fails its rule gives the reason.
    /// No field of it is held to a rule, so the conversion always succeeds.
    pub fn try_from(raw: RawGetCommentPayload) -> (made: Result<Self, ValidationError>)
        ensures
            match made {
                Ok(value) => Self::refusal(raw) is None && value.made_of(raw),
                Err(reason) => Self::refusal(raw) == Some(reason),
            },
    {
        let id = CommentId::from(raw.id);
        let include_hidden = raw.include_hidden;
        Ok(GetCommentPayload { id, include_hidden })
    }

    /// Whether every text in the payload is one that passed its rule.
    pub open spec fn well_formed(&self) -> bool {
        true
    }

    /// Whether no text in the payload holds a special character.
    pub open spec fn plain(&self) -> bool {
        true
    }

    /// Whether `raw` is what the payload is written as on the wire.
    pub open spec fn written_as(&self, raw: RawGetCommentPayload) -> bool {
        &&& raw.id == self.id@
        &&& raw.include_hidden == self.include_hidden
    }

    /// Whether the two payloads hold the same in every field.
    pub open spec fn same_as(&self, other: Self) -> bool {
        &&& self.id@ == other.id@
        &&& self.include_hidden == other.include_hidden
    }

    /// A payload without special characters that is written on the wire and
    /// converted again is not refused, and comes out the same.
    pub proof fn lemma_round_trip(self, raw: RawGetCommentPayload, again: Self)
        requires
            self.well_formed(),
            self.plain(),
            self.written_as(raw),
            again.made_of(raw),
        ensures
            Self::refusal(raw) is None,
            self.same_as(again),
    {
    }
}

/// A request for the comments of a thread, as it comes off the wire: nothing
/// in it has been checked.
#[derive(Clone, Copy, PartialEq, Debug)]
pub struct RawGetCommentsPayload {
    pub id: u32,
    pub include_hidden: bool,
}

/// A request for the comments of a thread, every field of which has passed its rule.
#[derive(PartialEq, Debug)]
pub struct GetCommentsPayload {
    pub id: ThreadId,
    pub include_hidden: bool,
}

impl FromRaw<RawGetCommentsPayload> for GetCommentsPayload {
    open spec fn refusal(raw: RawGetCommentsPayload) -> Option<ValidationError> {
        None
    }

    open spec fn made_of(&self, raw: RawGetCommentsPayload) -> bool {
        &&& self.id@ == raw.id
        &&& self.include_hidden == raw.include_hidden
    }

    fn from_raw(raw: RawGetCommentsPayload) -> (made: Result<Self, ValidationError>) {
        Self::try_from(raw)
    }
}

impl GetCommentsPayload {
    /// Converts the raw payload field by field, in the order of declaration:
    /// the first field that fails its rule gives the reason.
    /// No field of it is held to a rule, so the conversion always succeeds.
    pub fn try_from(raw: RawGetCommentsPayload) -> (made: Result<Self, ValidationError>)
        ensures
            match made {
                Ok(value) => Self::refusal(raw) is None && value.made_of(raw),
                Err(reason) => Self::refusal(raw) == Some(reason),
            },
    {
        let id = ThreadId::from(raw.id);
        let include_hidden = raw.include_hidden;
        Ok(GetCommentsPayload { id, include_hidden })
    }

    /// Whether every text in the payload is one that passed its rule.
    pub open spec fn well_formed(&self) -> bool {
        true
    }

    /// Whether no text in the payload holds a special character.
    pub open spec fn plain(&self) -> bool {
        true
    }

    /// Whether `raw` is what the payload is written as on the wire.
    pub open spec fn written_as(&self, raw: RawGetCommentsPayload) -> bool {
        &&& raw.id == self.id@
        &&& raw.include_hidden == self.include_hidden
    }

    /// Whether the two payloads hold the same in every field.
    pub open spec fn same_as(&self, other: Self) -> bool {
        &&& self.id@ == other.id@
        &&& self.include_hidden == other.include_hidden
    }

    /// A payload without special characters that is written on the wire and
    /// converted again is not refused, and comes out the same.
    pub proof fn lemma_round_trip(self, raw: RawGetCommentsPayload, again: Self)
        requires
            self.well_formed(),
            self.plain(),
            self.written_as(raw),
            again.made_of(raw),
        ensures
            Self::refusal(raw) is None,
            self.same_as(again),
    {
    }
}

/// A request to add a comment, as it comes off the wire: nothing in it has been checked.
#[derive(Clone, Copy, PartialEq, Debug)]
pub struct RawAddCommentPayload<'a> {
    pub thread_id: u32,
    pub user_id: u32,
    pub parent_id: Option<u32>,
    pub content: &'a str,
}

/// A request to add a comment, every field of which has passed its rule.
#[derive(PartialEq, Debug)]
pub struct AddCommentPayload {
    pub thread_id: ThreadId,
    pub user_id: UserId,
    pub parent_id: Option<CommentId>,
    pub content: CommentContent,
}

impl<'a> FromRaw<RawAddCommentPayload<'a>> for AddCommentPayload {
    open spec fn refusal(raw: RawAddCommentPayload<'a>) -> Option<ValidationError> {
        failure::<CommentContent>(raw.content@)
    }

    open spec fn made_of(&self, raw: RawAddCommentPayload<'a>) -> bool {
        &&& self.thread_id@ == raw.thread_id
        &&& self.user_id@ == raw.user_id
        &&& same_id(self.parent_id, raw.parent_id)
        &&& keeps(self.content, raw.content)
    }

    fn from_raw(raw: RawAddCommentPayload<'a>) -> (made: Result<Self, ValidationError>) {
        Self::try_from(raw)
    }
}

impl AddCommentPayload {
    /// Converts the raw payload field by field, in the order of declaration:
    /// the first field that fails its rule gives the reason.
    pub fn try_from<'a>(raw: RawAddCommentPayload<'a>) -> (made: Result<Self, ValidationError>)
        ensures
            match made {
                Ok(value) => Self::refusal(raw) is None && value.made_of(raw),
                Err(reason) => Self::refusal(raw) == Some(reason),
            },
    {
        let content = match required::<CommentContent>(raw.content) {
            Ok(value) => value,
            Err(reason) => {
                return Err(reason);
            },
        };
        let thread_id = ThreadId::from(raw.thread_id);
        let user_id = UserId::from(raw.user_id);
        let parent_id = match raw.parent_id {
            Some(n) => Some(CommentId::from(n)),
            None => None,
        };
        Ok(AddCommentPayload { thread_id, user_id, parent_id, content })
    }

    /// Whether every text in the payload is one that passed its rule.
    pub open spec fn well_formed(&self) -> bool {
        &&& is_kept::<CommentContent>(self.content@)
    }

    /// Whether no text in the payload holds a special character.
    pub open spec fn plain(&self) -> bool {
        &&& is_plain(self.content@)
    }

    /// Whether `raw` is what the payload is written as on the wire.
    pub open spec fn written_as<'a>(&self, raw: RawAddCommentPayload<'a>) -> bool {
        &&& raw.thread_id == self.thread_id@
        &&& raw.user_id == self.user_id@
        &&& same_id(self.parent_id, raw.parent_id)
        &&& written(self.content, raw.content)
    }

    /// Whether the two payloads hold the same in every field.
    pub open spec fn same_as(&self, other: Self) -> bool {
        &&& self.thread_id@ == other.thread_id@
        &&& self.user_id@ == other.user_id@
        &&& same_optional_id(self.parent_id, other.parent_id)
        &&& same(self.content, other.content)
    }

    /// A payload without special characters that is written on the wire and
    /// converted again is not refused, and comes out the same.
    pub proof fn lemma_round_trip<'a>(self, raw: RawAddCommentPayload<'a>, again: Self)
        requires
            self.well_formed(),
            self.plain(),
            self.written_as(raw),
            again.made_of(raw),
        ensures
            Self::refusal(raw) is None,
            self.same_as(again),
    {
        lemma_required_round_trip::<CommentContent>(self.content, raw.content, again.content);
    }
}

/// A request to edit a comment, as it comes off the wire: nothing in it has been checked.
#[derive(Clone, Copy, PartialEq, Debug)]
pub struct RawEditCommentPayload<'a> {
    pub id: u32,
    pub content: &'a str,
}

/// A request to edit a comment, every field of which has passed its rule.
#[derive(PartialEq, Debug)]
pub struct EditCommentPayload {
    pub id: CommentId,
    pub content: CommentContent,
}

impl<'a> FromRaw<RawEditCommentPayload<'a>> for EditCommentPayload {
    open spec fn refusal(raw: RawEditCommentPayload<'a>) -> Option<ValidationError> {
        failure::<CommentContent>(raw.content@)
    }

    open spec fn made_of(&self, raw: RawEditCommentPayload<'a>) -> bool {
        &&& self.id@ == raw.id
        &&& keeps(self.content, raw.content)
    }

    fn from_raw(raw: RawEditCommentPayload<'a>) -> (made: Result<Self, ValidationError>) {
        Self::try_from(raw)
    }
}

impl EditCommentPayload {
    /// Converts the raw payload field by field, in the order of declaration:
    /// the first field that fails its rule gives the reason.
    pub fn try_from<'a>(raw: RawEditCommentPayload<'a>) -> (made: Result<Self, ValidationError>)
        ensures
            match made {
                Ok(value) => Self::refusal(raw) is None && value.made_of(raw),
                Err(reason) => Self::refusal(raw) == Some(reason),
            },
    {
        let content = match required::<CommentContent>(raw.content) {
            Ok(value) => value,
            Err(reason) => {
                return Err(reason);
            },
        };
        let id = CommentId::from(raw.id);
        Ok(EditCommentPayload { id, content })
    }

    /// Whether every text in the payload is one that passed its rule.
    pub open spec fn well_formed(&self) -> bool {
        &&& is_kept::<CommentContent>(self.content@)
    }

    /// Whether no text in the payload holds a special character.
    pub open spec fn plain(&self) -> bool {
        &&& is_plain(self.content@)
    }

    /// Whether `raw` is what the payload is written as on the wire.
    pub open spec fn written_as<'a>(&self, raw: RawEditCommentPayload<'a>) -> bool {
        &&& raw.id == self.id@
        &&& written(self.content, raw.content)
    }

    /// Whether the two payloads hold the same in every field.
    pub open spec fn same_as(&self, other: Self) -> bool {
        &&& self.id@ == other.id@
        &&& same(self.content, other.content)
    }

    /// A payload without special characters that is written on the wire and
    /// converted again is not refused, and comes out the same.
    pub proof fn lemma_round_trip<'a>(self, raw: RawEditCommentPayload<'a>, again: Self)
        requires
            self.well_formed(),
            self.plain(),
            self.written_as(raw),
            again.made_of(raw),
        ensures
            Self::refusal(raw) is None,
            self.same_as(again),
    {
        lemma_required_round_trip::<CommentContent>(self.content, raw.content, again.content);
    }
}

/// A request to hide or show a comment, as it comes off the wire: nothing in it has been checked.
#[derive(Clone, Copy, PartialEq, Debug)]
pub struct RawHideCommentPayload {
    pub id: u32,
    pub hide: bool,
}

/// A request to hide or show a comment, every field of which has passed its rule.
#[derive(PartialEq, Debug)]
pub struct HideCommentPayload {
    pub id: CommentId,
    pub hide: bool,
}

impl FromRaw<RawHideCommentPayload> for HideCommentPayload {
    open spec fn refusal(raw: RawHideCommentPayload) -> Option<ValidationError> {
        None
    }

    open spec fn made_of(&self, raw: RawHideCommentPayload) -> bool {
        &&& self.id@ == raw.id
        &&& self.hide == raw.hide
    }

    fn from_raw(raw: RawHideCommentPayload) -> (made: Result<Self, ValidationError>) {
        Self::try_from(raw)
    }
}

impl HideCommentPayload {
    /// Converts the raw payload field by field, in the order of declaration:
    /// the first field that fails its rule gives the reason.
    /// No field of it is held to a rule, so the conversion always succeeds.
    pub fn try_from(raw: RawHideCommentPayload) -> (made: Result<Self, ValidationError>)
        ensures
            match made {
                Ok(value) => Self::refusal(raw) is None && value.made_of(raw),
                Err(reason) => Self::refusal(raw) == Some(reason),
            },
    {
        let id = CommentId::from(raw.id);
        let hide = raw.hide;
        Ok(HideCommentPayload { id, hide })
    }

    /// Whether every text in the payload is one that passed its rule.
    pub open spec fn well_formed(&self) -> bool {
        true
    }

    /// Whether no text in the payload holds a special character.
    pub open spec fn plain(&self) -> bool {
        true
    }

    /// Whether `raw` is what the payload is written as on the wire.
    pub open spec fn written_as(&self, raw: RawHideCommentPayload) -> bool {
        &&& raw.id == self.id@
        &&& raw.hide == self.hide
    }

    /// Whether the two payloads hold the same in every field.
    pub open spec fn same_as(&self, other: Self) -> bool {
        &&& self.id@ == other.id@
        &&& self.hide == other.hide
    }

    /// A payload without special characters that is written on the wire and
    /// converted again is not refused, and comes out the same.
    pub proof fn lemma_round_trip(self, raw: RawHideCommentPayload, again: Self)
        requires
            self.well_formed(),
            self.plain(),
            self.written_as(raw),
            again.made_of(raw),
        ensures
            Self::refusal(raw) is None,
            self.same_as(again),
    {
    }
}

/// A search request, as it comes off the wire: nothing in it has been checked.
#[derive(Clone, Copy, PartialEq, Debug)]
pub struct RawSearchPayload<'a> {
    pub query: &'a str,
    pub include_hidden: bool,
}

/// A search request, every field of which has passed its rule.
#[derive(PartialEq, Debug)]
pub struct SearchPayload {
    pub query: QueryStr,
    pub include_hidden: bool,
}

impl<'a> FromRaw<RawSearchPayload<'a>> for SearchPayload {
    open spec fn refusal(raw: RawSearchPayload<'a>) -> Option<ValidationError> {
        failure::<QueryStr>(raw.query@)
    }

    open spec fn made_of(&self, raw: RawSearchPayload<'a>) -> bool {
        &&& keeps(self.query, raw.query)
        &&& self.include_hidden == raw.include_hidden
    }

    fn from_raw(raw: RawSearchPayload<'a>) -> (made: Result<Self, ValidationError>) {
        Self::try_from(raw)
    }
}

impl SearchPayload {
    /// Converts the raw payload field by field, in the order of declaration:
    /// the first field that fails its rule gives the reason.
    pub fn try_from<'a>(raw: RawSearchPayload<'a>) -> (made: Result<Self, ValidationError>)
        ensures
            match made {
                Ok(value) => Self::refusal(raw) is None && value.made_of(raw),
                Err(reason) => Self::refusal(raw) == Some(reason),
            },
    {
        let query = match required::<QueryStr>(raw.query) {
            Ok(value) => value,
            Err(reason) => {
                return Err(reason);
            },
        };
        let include_hidden = raw.include_hidden;
        Ok(SearchPayload { query, include_hidden })
    }

    /// Whether every text in the payload is one that passed its rule.
    pub open spec fn well_formed(&self) -> bool {
        &&& is_kept::<QueryStr>(self.query@)
    }

    /// Whether no text in the payload holds a special character.
    pub open spec fn plain(&self) -> bool {
        &&& is_plain(self.query@)
    }

    /// Whether `raw` is what the payload is written as on the wire.
    pub open spec fn written_as<'a>(&self, raw: RawSearchPayload<'a>) -> bool {
        &&& written(self.query, raw.query)
        &&& raw.include_hidden == self.include_hidden
    }

    /// Whether the two payloads hold the same in every field.
    pub open spec fn same_as(&self, other: Self) -> bool {
        &&& same(self.query, other.query)
        &&& self.include_hidden == other.include_hidden
    }

    /// A payload without special characters that is written on the wire and
    /// converted again is not refused, and comes out the same.
    pub proof fn lemma_round_trip<'a>(self, raw: RawSearchPayload<'a>, again: Self)
        requires
            self.well_formed(),
            self.plain(),
            self.written_as(raw),
            again.made_of(raw),
        ensures
            Self::refusal(raw) is None,
            self.same_as(again),
    {
        lemma_required_round_trip::<QueryStr>(self.query, raw.query, again.query);
    }
}

/// A request for what is hidden, as it comes off the wire: nothing in it has been checked.
#[derive(Clone, Copy, PartialEq, Debug)]
pub struct RawGetHiddenPayload {
    pub include_hidden: bool,
}

/// A request for what is hidden, every field of which has passed its rule.
#[derive(PartialEq, Debug)]
pub struct GetHiddenPayload {
    pub include_hidden: bool,
}

impl FromRaw<RawGetHiddenPayload> for GetHiddenPayload {
    open spec fn refusal(raw: RawGetHiddenPayload) -> Option<ValidationError> {
        None
    }

    open spec fn made_of(&self, raw: RawGetHiddenPayload) -> bool {
        &&& self.include_hidden == raw.include_hidden
    }

    fn from_raw(raw: RawGetHiddenPayload) -> (made: Result<Self, ValidationError>) {
        Self::try_from(raw)
    }
}

impl GetHiddenPayload {
    /// Converts the raw payload field by field, in the order of declaration:
    /// the first field that fails its rule gives the reason.
    /// No field of it is held to a rule, so the conversion always succeeds.
    pub fn try_from(raw: RawGetHiddenPayload) -> (made: Result<Self, ValidationError>)
        ensures
            match made {
                Ok(value) => Self::refusal(raw) is None && value.made_of(raw),
                Err(reason) => Self::refusal(raw) == Some(reason),
            },
    {
        let include_hidden = raw.include_hidden;
        Ok(GetHiddenPayload { include_hidden })
    }

    /// Whether every text in the payload is one that passed its rule.
    pub open spec fn well_formed(&self) -> bool {
        true
    }

    /// Whether no text in the payload holds a special character.
    pub open spec fn plain(&self) -> bool {
        true
    }

    /// Whether `raw` is what the payload is written as on the wire.
    pub open spec fn written_as(&self, raw: RawGetHiddenPayload) -> bool {
        &&& raw.include_hidden == self.include_hidden
    }

    /// Whether the two payloads hold the same in every field.
    pub open spec fn same_as(&self, other: Self) -> bool {
        &&& self.include_hidden == other.include_hidden
    }

    /// A payload without special characters that is written on the wire and
    /// converted again is not refused, and comes out the same.
    pub proof fn lemma_round_trip(self, raw: RawGetHiddenPayload, again: Self)
        requires
            self.well_formed(),
            self.plain(),
            self.written_as(raw),
            again.made_of(raw),
        ensures
            Self::refusal(raw) is None,
            self.same_as(again),
    {
    }
}

} // verus!

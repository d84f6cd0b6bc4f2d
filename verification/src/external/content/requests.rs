//! The requests a user can make to the content-database
//!
//! Every request comes in two shapes: a raw one, as it is read off the wire,
//! and a valid one, which only a conversion that checked every field hands
//! out.

use vstd::prelude::*;
use crate::valid::convert::{
    description_failure, failure, first_failure, is_kept, keeps, keeps_optional, kept_optional,
    lemma_description_round_trip, lemma_optional_description_round_trip, lemma_optional_round_trip,
    lemma_required_round_trip, non_empty_optional, optional, optional_description,
    optional_description_failure, optional_failure, plain_optional, required, required_description,
    same, same_id, same_optional, same_optional_id, written, written_optional, FromRaw,
};
use crate::valid::fields::{CommentContent, Description, Title};
use crate::valid::ids::{CategoryId, CommentId, ThreadId, UserId};
use crate::valid::rules::{byte_len, is_plain};
use crate::valid::ValidationError;

verus! {

/// The requests to the content-database, as they come off the wire.
#[derive(Clone, Copy, PartialEq, Debug)]
pub enum RawContentRequests<'a> {
    AddCategory(RawAddCategoryPayload<'a>),
    EditCategory(RawEditCategoryPayload<'a>),
    HideCategory(RawHideCategoryPayload),
    AddThread(RawAddThreadPayload<'a>),
    EditThread(RawEditThreadPayload<'a>),
    HideThread(RawHideThreadPayload),
    AddComment(RawAddCommentPayload<'a>),
    EditComment(RawEditCommentPayload<'a>),
    HideComment(RawHideCommentPayload),
    UploadAvatar(RawUploadAvatarPayload<'a>),
}

/// The requests to the content-database, with every payload checked.
#[derive(PartialEq, Debug)]
pub enum ContentRequests<'a> {
    AddCategory(AddCategoryPayload),
    EditCategory(EditCategoryPayload),
    HideCategory(HideCategoryPayload),
    AddThread(AddThreadPayload),
    EditThread(EditThreadPayload),
    HideThread(HideThreadPayload),
    AddComment(AddCommentPayload),
    EditComment(EditCommentPayload),
    HideComment(HideCommentPayload),
    UploadAvatar(UploadAvatarPayload<'a>),
}

impl<'a> FromRaw<RawContentRequests<'a>> for ContentRequests<'a> {
    open spec fn refusal(raw: RawContentRequests<'a>) -> Option<ValidationError> {
        match raw {
            RawContentRequests::AddCategory(p) => AddCategoryPayload::refusal(p),
            RawContentRequests::EditCategory(p) => EditCategoryPayload::refusal(p),
            RawContentRequests::HideCategory(p) => HideCategoryPayload::refusal(p),
            RawContentRequests::AddThread(p) => AddThreadPayload::refusal(p),
            RawContentRequests::EditThread(p) => EditThreadPayload::refusal(p),
            RawContentRequests::HideThread(p) => HideThreadPayload::refusal(p),
            RawContentRequests::AddComment(p) => AddCommentPayload::refusal(p),
            RawContentRequests::EditComment(p) => EditCommentPayload::refusal(p),
            RawContentRequests::HideComment(p) => HideCommentPayload::refusal(p),
            RawContentRequests::UploadAvatar(p) => UploadAvatarPayload::refusal(p),
        }
    }

    open spec fn made_of(&self, raw: RawContentRequests<'a>) -> bool {
        match (*self, raw) {
            (ContentRequests::AddCategory(v), RawContentRequests::AddCategory(p)) => v.made_of(p),
            (ContentRequests::EditCategory(v), RawContentRequests::EditCategory(p)) => v.made_of(p),
            (ContentRequests::HideCategory(v), RawContentRequests::HideCategory(p)) => v.made_of(p),
            (ContentRequests::AddThread(v), RawContentRequests::AddThread(p)) => v.made_of(p),
            (ContentRequests::EditThread(v), RawContentRequests::EditThread(p)) => v.made_of(p),
            (ContentRequests::HideThread(v), RawContentRequests::HideThread(p)) => v.made_of(p),
            (ContentRequests::AddComment(v), RawContentRequests::AddComment(p)) => v.made_of(p),
            (ContentRequests::EditComment(v), RawContentRequests::EditComment(p)) => v.made_of(p),
            (ContentRequests::HideComment(v), RawContentRequests::HideComment(p)) => v.made_of(p),
            (ContentRequests::UploadAvatar(v), RawContentRequests::UploadAvatar(p)) => v.made_of(p),
            _ => false,
        }
    }

    fn from_raw(raw: RawContentRequests<'a>) -> (made: Result<Self, ValidationError>) {
        Self::try_from(raw)
    }
}

impl<'a> ContentRequests<'a> {
    /// Converts the payload of whichever variant `raw` is, and keeps the
    /// variant.
    pub fn try_from(raw: RawContentRequests<'a>) -> (made: Result<Self, ValidationError>)
        ensures
            match made {
                Ok(value) => Self::refusal(raw) is None && value.made_of(raw),
                Err(reason) => Self::refusal(raw) == Some(reason),
            },
    {
        match raw {
            RawContentRequests::AddCategory(p) => match AddCategoryPayload::try_from(p) {
                Ok(v) => Ok(ContentRequests::AddCategory(v)),
                Err(reason) => Err(reason),
            },
            RawContentRequests::EditCategory(p) => match EditCategoryPayload::try_from(p) {
                Ok(v) => Ok(ContentRequests::EditCategory(v)),
                Err(reason) => Err(reason),
            },
            RawContentRequests::HideCategory(p) => match HideCategoryPayload::try_from(p) {
                Ok(v) => Ok(ContentRequests::HideCategory(v)),
                Err(reason) => Err(reason),
            },
            RawContentRequests::AddThread(p) => match AddThreadPayload::try_from(p) {
                Ok(v) => Ok(ContentRequests::AddThread(v)),
                Err(reason) => Err(reason),
            },
            RawContentRequests::EditThread(p) => match EditThreadPayload::try_from(p) {
                Ok(v) => Ok(ContentRequests::EditThread(v)),
                Err(reason) => Err(reason),
            },
            RawContentRequests::HideThread(p) => match HideThreadPayload::try_from(p) {
                Ok(v) => Ok(ContentRequests::HideThread(v)),
                Err(reason) => Err(reason),
            },
            RawContentRequests::AddComment(p) => match AddCommentPayload::try_from(p) {
                Ok(v) => Ok(ContentRequests::AddComment(v)),
                Err(reason) => Err(reason),
            },
            RawContentRequests::EditComment(p) => match EditCommentPayload::try_from(p) {
                Ok(v) => Ok(ContentRequests::EditComment(v)),
                Err(reason) => Err(reason),
            },
            RawContentRequests::HideComment(p) => match HideCommentPayload::try_from(p) {
                Ok(v) => Ok(ContentRequests::HideComment(v)),
                Err(reason) => Err(reason),
            },
            RawContentRequests::UploadAvatar(p) => match UploadAvatarPayload::try_from(p) {
                Ok(v) => Ok(ContentRequests::UploadAvatar(v)),
                Err(reason) => Err(reason),
            },
        }
    }
}

/// A request to add a category, as it comes off the wire: nothing in it has been checked.
#[derive(Clone, Copy, PartialEq, Debug)]
pub struct RawAddCategoryPayload<'a> {
    pub title: &'a str,
    pub description: &'a str,
}

/// A request to add a category, every field of which has passed its rule.
#[derive(PartialEq, Debug)]
pub struct AddCategoryPayload {
    pub title: Title,
    pub description: Description,
}

impl<'a> FromRaw<RawAddCategoryPayload<'a>> for AddCategoryPayload {
    open spec fn refusal(raw: RawAddCategoryPayload<'a>) -> Option<ValidationError> {
        first_failure(
            failure::<Title>(raw.title@),
            description_failure(raw.description@),
        )
    }

    open spec fn made_of(&self, raw: RawAddCategoryPayload<'a>) -> bool {
        &&& keeps(self.title, raw.title)
        &&& keeps(self.description, raw.description)
    }

    fn from_raw(raw: RawAddCategoryPayload<'a>) -> (made: Result<Self, ValidationError>) {
        Self::try_from(raw)
    }
}

impl AddCategoryPayload {
    /// Converts the raw payload field by field, in the order of declaration:
    /// the first field that fails its rule gives the reason.
    pub fn try_from<'a>(raw: RawAddCategoryPayload<'a>) -> (made: Result<Self, ValidationError>)
        ensures
            match made {
                Ok(value) => Self::refusal(raw) is None && value.made_of(raw),
                Err(reason) => Self::refusal(raw) == Some(reason),
            },
    {
        let title = match required::<Title>(raw.title) {
            Ok(value) => value,
            Err(reason) => {
                return Err(reason);
            },
        };
        let description = match required_description(raw.description) {
            Ok(value) => value,
            Err(reason) => {
                return Err(reason);
            },
        };
        Ok(AddCategoryPayload { title, description })
    }

    /// Whether every text in the payload is one that passed its rule.
    pub open spec fn well_formed(&self) -> bool {
        &&& is_kept::<Title>(self.title@)
        &&& is_kept::<Description>(self.description@)
        &&& byte_len(self.description@) > 0
    }

    /// Whether no text in the payload holds a special character.
    pub open spec fn plain(&self) -> bool {
        &&& is_plain(self.title@)
        &&& is_plain(self.description@)
    }

    /// Whether `raw` is what the payload is written as on the wire.
    pub open spec fn written_as<'a>(&self, raw: RawAddCategoryPayload<'a>) -> bool {
        &&& written(self.title, raw.title)
        &&& written(self.description, raw.description)
    }

    /// Whether the two payloads hold the same in every field.
    pub open spec fn same_as(&self, other: Self) -> bool {
        &&& same(self.title, other.title)
        &&& same(self.description, other.description)
    }

    /// A payload without special characters that is written on the wire and
    /// converted again is not refused, and comes out the same.
    pub proof fn lemma_round_trip<'a>(self, raw: RawAddCategoryPayload<'a>, again: Self)
        requires
            self.well_formed(),
            self.plain(),
            self.written_as(raw),
            again.made_of(raw),
        ensures
            Self::refusal(raw) is None,
            self.same_as(again),
    {
        lemma_required_round_trip::<Title>(self.title, raw.title, again.title);
        lemma_description_round_trip(self.description, raw.description, again.description);
    }
}

/// A request to edit a category, as it comes off the wire: nothing in it has been checked.
#[derive(Clone, Copy, PartialEq, Debug)]
pub struct RawEditCategoryPayload<'a> {
    pub title: Option<&'a str>,
    pub description: Option<&'a str>,
}

/// A request to edit a category, every field of which has passed its rule.
#[derive(PartialEq, Debug)]
pub struct EditCategoryPayload {
    pub title: Option<Title>,
    pub description: Option<Description>,
}

impl<'a> FromRaw<RawEditCategoryPayload<'a>> for EditCategoryPayload {
    open spec fn refusal(raw: RawEditCategoryPayload<'a>) -> Option<ValidationError> {
        first_failure(
            optional_failure::<Title>(raw.title),
            optional_description_failure(raw.description),
        )
    }

    open spec fn made_of(&self, raw: RawEditCategoryPayload<'a>) -> bool {
        &&& keeps_optional(self.title, raw.title)
        &&& keeps_optional(self.description, raw.description)
    }

    fn from_raw(raw: RawEditCategoryPayload<'a>) -> (made: Result<Self, ValidationError>) {
        Self::try_from(raw)
    }
}

impl EditCategoryPayload {
    /// Converts the raw payload field by field, in the order of declaration:
    /// the first field that fails its rule gives the reason.
    pub fn try_from<'a>(raw: RawEditCategoryPayload<'a>) -> (made: Result<Self, ValidationError>)
        ensures
            match made {
                Ok(value) => Self::refusal(raw) is None && value.made_of(raw),
                Err(reason) => Self::refusal(raw) == Some(reason),
            },
    {
        let title = match optional::<Title>(raw.title) {
            Ok(value) => value,
            Err(reason) => {
                return Err(reason);
            },
        };
        let description = match optional_description(raw.description) {
            Ok(value) => value,
            Err(reason) => {
                return Err(reason);
            },
        };
        Ok(EditCategoryPayload { title, description })
    }

    /// Whether every text in the payload is one that passed its rule.
    pub open spec fn well_formed(&self) -> bool {
        &&& kept_optional(self.title)
        &&& kept_optional(self.description)
        &&& non_empty_optional(self.description)
    }

    /// Whether no text in the payload holds a special character.
    pub open spec fn plain(&self) -> bool {
        &&& plain_optional(self.title)
        &&& plain_optional(self.description)
    }

    /// Whether `raw` is what the payload is written as on the wire.
    pub open spec fn written_as<'a>(&self, raw: RawEditCategoryPayload<'a>) -> bool {
        &&& written_optional(self.title, raw.title)
        &&& written_optional(self.description, raw.description)
    }

    /// Whether the two payloads hold the same in every field.
    pub open spec fn same_as(&self, other: Self) -> bool {
        &&& same_optional(self.title, other.title)
        &&& same_optional(self.description, other.description)
    }

    /// A payload without special characters that is written on the wire and
    /// converted again is not refused, and comes out the same.
    pub proof fn lemma_round_trip<'a>(self, raw: RawEditCategoryPayload<'a>, again: Self)
        requires
            self.well_formed(),
            self.plain(),
            self.written_as(raw),
            again.made_of(raw),
        ensures
            Self::refusal(raw) is None,
            self.same_as(again),
    {
        lemma_optional_round_trip::<Title>(self.title, raw.title, again.title);
        lemma_optional_description_round_trip(self.description, raw.description, again.description);
    }
}

/// A request to hide or show a category, as it comes off the wire: nothing in it has been checked.
#[derive(Clone, Copy, PartialEq, Debug)]
pub struct RawHideCategoryPayload {
    pub hidden: bool,
}

/// A request to hide or show a category, every field of which has passed its rule.
#[derive(PartialEq, Debug)]
pub struct HideCategoryPayload {
    pub hidden: bool,
}

impl FromRaw<RawHideCategoryPayload> for HideCategoryPayload {
    open spec fn refusal(raw: RawHideCategoryPayload) -> Option<ValidationError> {
        None
    }

    open spec fn made_of(&self, raw: RawHideCategoryPayload) -> bool {
        &&& self.hidden == raw.hidden
    }

    fn from_raw(raw: RawHideCategoryPayload) -> (made: Result<Self, ValidationError>) {
        Self::try_from(raw)
    }
}

impl HideCategoryPayload {
    /// Converts the raw payload field by field, in the order of declaration:
    /// the first field that fails its rule gives the reason.
    /// No field of it is held to a rule, so the conversion always succeeds.
    pub fn try_from(raw: RawHideCategoryPayload) -> (made: Result<Self, ValidationError>)
        ensures
            match made {
                Ok(value) => Self::refusal(raw) is None && value.made_of(raw),
                Err(reason) => Self::refusal(raw) == Some(reason),
            },
    {
        let hidden = raw.hidden;
        Ok(HideCategoryPayload { hidden })
    }

    /// Whether every text in the payload is one that passed its rule.
    pub open spec fn well_formed(&self) -> bool {
        true
    }

    /// Whether no text in the payload holds a special character.
    pub open spec fn plain(&self) -> bool {
        true
    }

    /// Whether `raw` is what the payload is written as on the wire.
    pub open spec fn written_as(&self, raw: RawHideCategoryPayload) -> bool {
        &&& raw.hidden == self.hidden
    }

    /// Whether the two payloads hold the same in every field.
    pub open spec fn same_as(&self, other: Self) -> bool {
        &&& self.hidden == other.hidden
    }

    /// A payload without special characters that is written on the wire and
    /// converted again is not refused, and comes out the same.
    pub proof fn lemma_round_trip(self, raw: RawHideCategoryPayload, again: Self)
        requires
            self.well_formed(),
            self.plain(),
            self.written_as(raw),
            again.made_of(raw),
        ensures
            Self::refusal(raw) is None,
            self.same_as(again),
    {
    }
}

/// A request to add a thread, as it comes off the wire: nothing in it has been checked.
#[derive(Clone, Copy, PartialEq, Debug)]
pub struct RawAddThreadPayload<'a> {
    pub title: &'a str,
    pub description: &'a str,
    pub category_id: u32,
    pub user_id: u32,
    pub timestamp: i64,
}

/// A request to add a thread, every field of which has passed its rule.
#[derive(PartialEq, Debug)]
pub struct AddThreadPayload {
    pub title: Title,
    pub description: Description,
    pub category_id: CategoryId,
    pub user_id: UserId,
    pub timestamp: i64,
}

impl<'a> FromRaw<RawAddThreadPayload<'a>> for AddThreadPayload {
    open spec fn refusal(raw: RawAddThreadPayload<'a>) -> Option<ValidationError> {
        first_failure(
            failure::<Title>(raw.title@),
            description_failure(raw.description@),
        )
    }

    open spec fn made_of(&self, raw: RawAddThreadPayload<'a>) -> bool {
        &&& keeps(self.title, raw.title)
        &&& keeps(self.description, raw.description)
        &&& self.category_id@ == raw.category_id
        &&& self.user_id@ == raw.user_id
        &&& self.timestamp == raw.timestamp
    }

    fn from_raw(raw: RawAddThreadPayload<'a>) -> (made: Result<Self, ValidationError>) {
        Self::try_from(raw)
    }
}

impl AddThreadPayload {
    /// Converts the raw payload field by field, in the order of declaration:
    /// the first field that fails its rule gives the reason.
    pub fn try_from<'a>(raw: RawAddThreadPayload<'a>) -> (made: Result<Self, ValidationError>)
        ensures
            match made {
                Ok(value) => Self::refusal(raw) is None && value.made_of(raw),
                Err(reason) => Self::refusal(raw) == Some(reason),
            },
    {
        let title = match required::<Title>(raw.title) {
            Ok(value) => value,
            Err(reason) => {
                return Err(reason);
            },
        };
        let description = match required_description(raw.description) {
            Ok(value) => value,
            Err(reason) => {
                return Err(reason);
            },
        };
        let category_id = CategoryId::from(raw.category_id);
        let user_id = UserId::from(raw.user_id);
        let timestamp = raw.timestamp;
        Ok(AddThreadPayload { title, description, category_id, user_id, timestamp })
    }

    /// Whether every text in the payload is one that passed its rule.
    pub open spec fn well_formed(&self) -> bool {
        &&& is_kept::<Title>(self.title@)
        &&& is_kept::<Description>(self.description@)
        &&& byte_len(self.description@) > 0
    }

    /// Whether no text in the payload holds a special character.
    pub open spec fn plain(&self) -> bool {
        &&& is_plain(self.title@)
        &&& is_plain(self.description@)
    }

    /// Whether `raw` is what the payload is written as on the wire.
    pub open spec fn written_as<'a>(&self, raw: RawAddThreadPayload<'a>) -> bool {
        &&& written(self.title, raw.title)
        &&& written(self.description, raw.description)
        &&& raw.category_id == self.category_id@
        &&& raw.user_id == self.user_id@
        &&& raw.timestamp == self.timestamp
    }

    /// Whether the two payloads hold the same in every field.
    pub open spec fn same_as(&self, other: Self) -> bool {
        &&& same(self.title, other.title)
        &&& same(self.description, other.description)
        &&& self.category_id@ == other.category_id@
        &&& self.user_id@ == other.user_id@
        &&& self.timestamp == other.timestamp
    }

    /// A payload without special characters that is written on the wire and
    /// converted again is not refused, and comes out the same.
    pub proof fn lemma_round_trip<'a>(self, raw: RawAddThreadPayload<'a>, again: Self)
        requires
            self.well_formed(),
            self.plain(),
            self.written_as(raw),
            again.made_of(raw),
        ensures
            Self::refusal(raw) is None,
            self.same_as(again),
    {
        lemma_required_round_trip::<Title>(self.title, raw.title, again.title);
        lemma_description_round_trip(self.description, raw.description, again.description);
    }
}

/// A request to edit a thread, as it comes off the wire: nothing in it has been checked.
#[derive(Clone, Copy, PartialEq, Debug)]
pub struct RawEditThreadPayload<'a> {
    pub title: Option<&'a str>,
    pub description: Option<&'a str>,
}

/// A request to edit a thread, every field of which has passed its rule.
#[derive(PartialEq, Debug)]
pub struct EditThreadPayload {
    pub title: Option<Title>,
    pub description: Option<Description>,
}

impl<'a> FromRaw<RawEditThreadPayload<'a>> for EditThreadPayload {
    open spec fn refusal(raw: RawEditThreadPayload<'a>) -> Option<ValidationError> {
        first_failure(
            optional_failure::<Title>(raw.title),
            optional_description_failure(raw.description),
        )
    }

    open spec fn made_of(&self, raw: RawEditThreadPayload<'a>) -> bool {
        &&& keeps_optional(self.title, raw.title)
        &&& keeps_optional(self.description, raw.description)
    }

    fn from_raw(raw: RawEditThreadPayload<'a>) -> (made: Result<Self, ValidationError>) {
        Self::try_from(raw)
    }
}

impl EditThreadPayload {
    /// Converts the raw payload field by field, in the order of declaration:
    /// the first field that fails its rule gives the reason.
    pub fn try_from<'a>(raw: RawEditThreadPayload<'a>) -> (made: Result<Self, ValidationError>)
        ensures
            match made {
                Ok(value) => Self::refusal(raw) is None && value.made_of(raw),
                Err(reason) => Self::refusal(raw) == Some(reason),
            },
    {
        let title = match optional::<Title>(raw.title) {
            Ok(value) => value,
            Err(reason) => {
                return Err(reason);
            },
        };
        let description = match optional_description(raw.description) {
            Ok(value) => value,
            Err(reason) => {
                return Err(reason);
            },
        };
        Ok(EditThreadPayload { title, description })
    }

    /// Whether every text in the payload is one that passed its rule.
    pub open spec fn well_formed(&self) -> bool {
        &&& kept_optional(self.title)
        &&& kept_optional(self.description)
        &&& non_empty_optional(self.description)
    }

    /// Whether no text in the payload holds a special character.
    pub open spec fn plain(&self) -> bool {
        &&& plain_optional(self.title)
        &&& plain_optional(self.description)
    }

    /// Whether `raw` is what the payload is written as on the wire.
    pub open spec fn written_as<'a>(&self, raw: RawEditThreadPayload<'a>) -> bool {
        &&& written_optional(self.title, raw.title)
        &&& written_optional(self.description, raw.description)
    }

    /// Whether the two payloads hold the same in every field.
    pub open spec fn same_as(&self, other: Self) -> bool {
        &&& same_optional(self.title, other.title)
        &&& same_optional(self.description, other.description)
    }

    /// A payload without special characters that is written on the wire and
    /// converted again is not refused, and comes out the same.
    pub proof fn lemma_round_trip<'a>(self, raw: RawEditThreadPayload<'a>, again: Self)
        requires
            self.well_formed(),
            self.plain(),
            self.written_as(raw),
            again.made_of(raw),
        ensures
            Self::refusal(raw) is None,
            self.same_as(again),
    {
        lemma_optional_round_trip::<Title>(self.title, raw.title, again.title);
        lemma_optional_description_round_trip(self.description, raw.description, again.description);
    }
}

/// A request to hide or show a thread, as it comes off the wire: nothing in it has been checked.
#[derive(Clone, Copy, PartialEq, Debug)]
pub struct RawHideThreadPayload {
    pub hidden: bool,
}

/// A request to hide or show a thread, every field of which has passed its rule.
#[derive(PartialEq, Debug)]
pub struct HideThreadPayload {
    pub hidden: bool,
}

impl FromRaw<RawHideThreadPayload> for HideThreadPayload {
    open spec fn refusal(raw: RawHideThreadPayload) -> Option<ValidationError> {
        None
    }

    open spec fn made_of(&self, raw: RawHideThreadPayload) -> bool {
        &&& self.hidden == raw.hidden
    }

    fn from_raw(raw: RawHideThreadPayload) -> (made: Result<Self, ValidationError>) {
        Self::try_from(raw)
    }
}

impl HideThreadPayload {
    /// Converts the raw payload field by field, in the order of declaration:
    /// the first field that fails its rule gives the reason.
    /// No field of it is held to a rule, so the conversion always succeeds.
    pub fn try_from(raw: RawHideThreadPayload) -> (made: Result<Self, ValidationError>)
        ensures
            match made {
                Ok(value) => Self::refusal(raw) is None && value.made_of(raw),
                Err(reason) => Self::refusal(raw) == Some(reason),
            },
    {
        let hidden = raw.hidden;
        Ok(HideThreadPayload { hidden })
    }

    /// Whether every text in the payload is one that passed its rule.
    pub open spec fn well_formed(&self) -> bool {
        true
    }

    /// Whether no text in the payload holds a special character.
    pub open spec fn plain(&self) -> bool {
        true
    }

    /// Whether `raw` is what the payload is written as on the wire.
    pub open spec fn written_as(&self, raw: RawHideThreadPayload) -> bool {
        &&& raw.hidden == self.hidden
    }

    /// Whether the two payloads hold the same in every field.
    pub open spec fn same_as(&self, other: Self) -> bool {
        &&& self.hidden == other.hidden
    }

    /// A payload without special characters that is written on the wire and
    /// converted again is not refused, and comes out the same.
    pub proof fn lemma_round_trip(self, raw: RawHideThreadPayload, again: Self)
        requires
            self.well_formed(),
            self.plain(),
            self.written_as(raw),
            again.made_of(raw),
        ensures
            Self::refusal(raw) is None,
            self.same_as(again),
    {
    }
}

/// A request to add a comment, as it comes off the wire: nothing in it has been checked.
#[derive(Clone, Copy, PartialEq, Debug)]
pub struct RawAddCommentPayload<'a> {
    pub title: &'a str,
    pub content: &'a str,
    pub thread_id: u32,
    pub user_id: u32,
    pub timestamp: i64,
    pub parent_id: Option<u32>,
}

/// A request to add a comment, every field of which has passed its rule.
#[derive(PartialEq, Debug)]
pub struct AddCommentPayload {
    pub title: Title,
    pub content: CommentContent,
    pub thread_id: ThreadId,
    pub user_id: UserId,
    pub timestamp: i64,
    pub parent_id: Option<CommentId>,
}

impl<'a> FromRaw<RawAddCommentPayload<'a>> for AddCommentPayload {
    open spec fn refusal(raw: RawAddCommentPayload<'a>) -> Option<ValidationError> {
        first_failure(
            failure::<Title>(raw.title@),
            failure::<CommentContent>(raw.content@),
        )
    }

    open spec fn made_of(&self, raw: RawAddCommentPayload<'a>) -> bool {
        &&& keeps(self.title, raw.title)
        &&& keeps(self.content, raw.content)
        &&& self.thread_id@ == raw.thread_id
        &&& self.user_id@ == raw.user_id
        &&& self.timestamp == raw.timestamp
        &&& same_id(self.parent_id, raw.parent_id)
    }

    fn from_raw(raw: RawAddCommentPayload<'a>) -> (made: Result<Self, ValidationError>) {
        Self::try_from(raw)
    }
}

impl AddCommentPayload {
    /// Converts the raw payload field by field, in the order of declaration:
    /// the first field that fails its rule gives the reason.
    pub fn try_from<'a>(raw: RawAddCommentPayload<'a>) -> (made: Result<Self, ValidationError>)
        ensures
            match made {
                Ok(value) => Self::refusal(raw) is None && value.made_of(raw),
                Err(reason) => Self::refusal(raw) == Some(reason),
            },
    {
        let title = match required::<Title>(raw.title) {
            Ok(value) => value,
            Err(reason) => {
                return Err(reason);
            },
        };
        let content = match required::<CommentContent>(raw.content) {
            Ok(value) => value,
            Err(reason) => {
                return Err(reason);
            },
        };
        let thread_id = ThreadId::from(raw.thread_id);
        let user_id = UserId::from(raw.user_id);
        let timestamp = raw.timestamp;
        let parent_id = match raw.parent_id {
            Some(n) => Some(CommentId::from(n)),
            None => None,
        };
        Ok(AddCommentPayload { title, content, thread_id, user_id, timestamp, parent_id })
    }

    /// Whether every text in the payload is one that passed its rule.
    pub open spec fn well_formed(&self) -> bool {
        &&& is_kept::<Title>(self.title@)
        &&& is_kept::<CommentContent>(self.content@)
    }

    /// Whether no text in the payload holds a special character.
    pub open spec fn plain(&self) -> bool {
        &&& is_plain(self.title@)
        &&& is_plain(self.content@)
    }

    /// Whether `raw` is what the payload is written as on the wire.
    pub open spec fn written_as<'a>(&self, raw: RawAddCommentPayload<'a>) -> bool {
        &&& written(self.title, raw.title)
        &&& written(self.content, raw.content)
        &&& raw.thread_id == self.thread_id@
        &&& raw.user_id == self.user_id@
        &&& raw.timestamp == self.timestamp
        &&& same_id(self.parent_id, raw.parent_id)
    }

    /// Whether the two payloads hold the same in every field.
    pub open spec fn same_as(&self, other: Self) -> bool {
        &&& same(self.title, other.title)
        &&& same(self.content, other.content)
        &&& self.thread_id@ == other.thread_id@
        &&& self.user_id@ == other.user_id@
        &&& self.timestamp == other.timestamp
        &&& same_optional_id(self.parent_id, other.parent_id)
    }

    /// A payload without special characters that is written on the wire and
    /// converted again is not refused, and comes out the same.
    pub proof fn lemma_round_trip<'a>(self, raw: RawAddCommentPayload<'a>, again: Self)
        requires
            self.well_formed(),
            self.plain(),
            self.written_as(raw),
            again.made_of(raw),
        ensures
            Self::refusal(raw) is None,
            self.same_as(again),
    {
        lemma_required_round_trip::<Title>(self.title, raw.title, again.title);
        lemma_required_round_trip::<CommentContent>(self.content, raw.content, again.content);
    }
}

/// A request to edit a comment, as it comes off the wire: nothing in it has been checked.
#[derive(Clone, Copy, PartialEq, Debug)]
pub struct RawEditCommentPayload<'a> {
    pub title: Option<&'a str>,
    pub content: Option<&'a str>,
}

/// A request to edit a comment, every field of which has passed its rule.
#[derive(PartialEq, Debug)]
pub struct EditCommentPayload {
    pub title: Option<Title>,
    pub content: Option<CommentContent>,
}

impl<'a> FromRaw<RawEditCommentPayload<'a>> for EditCommentPayload {
    open spec fn refusal(raw: RawEditCommentPayload<'a>) -> Option<ValidationError> {
        first_failure(
            optional_failure::<Title>(raw.title),
            optional_failure::<CommentContent>(raw.content),
        )
    }

    open spec fn made_of(&self, raw: RawEditCommentPayload<'a>) -> bool {
        &&& keeps_optional(self.title, raw.title)
        &&& keeps_optional(self.content, raw.content)
    }

    fn from_raw(raw: RawEditCommentPayload<'a>) -> (made: Result<Self, ValidationError>) {
        Self::try_from(raw)
    }
}

impl EditCommentPayload {
    /// Converts the raw payload field by field, in the order of declaration:
    /// the first field that fails its rule gives the reason.
    pub fn try_from<'a>(raw: RawEditCommentPayload<'a>) -> (made: Result<Self, ValidationError>)
        ensures
            match made {
                Ok(value) => Self::refusal(raw) is None && value.made_of(raw),
                Err(reason) => Self::refusal(raw) == Some(reason),
            },
    {
        let title = match optional::<Title>(raw.title) {
            Ok(value) => value,
            Err(reason) => {
                return Err(reason);
            },
        };
        let content = match optional::<CommentContent>(raw.content) {
            Ok(value) => value,
            Err(reason) => {
                return Err(reason);
            },
        };
        Ok(EditCommentPayload { title, content })
    }

    /// Whether every text in the payload is one that passed its rule.
    pub open spec fn well_formed(&self) -> bool {
        &&& kept_optional(self.title)
        &&& kept_optional(self.content)
    }

    /// Whether no text in the payload holds a special character.
    pub open spec fn plain(&self) -> bool {
        &&& plain_optional(self.title)
        &&& plain_optional(self.content)
    }

    /// Whether `raw` is what the payload is written as on the wire.
    pub open spec fn written_as<'a>(&self, raw: RawEditCommentPayload<'a>) -> bool {
        &&& written_optional(self.title, raw.title)
        &&& written_optional(self.content, raw.content)
    }

    /// Whether the two payloads hold the same in every field.
    pub open spec fn same_as(&self, other: Self) -> bool {
        &&& same_optional(self.title, other.title)
        &&& same_optional(self.content, other.content)
    }

    /// A payload without special characters that is written on the wire and
    /// converted again is not refused, and comes out the same.
    pub proof fn lemma_round_trip<'a>(self, raw: RawEditCommentPayload<'a>, again: Self)
        requires
            self.well_formed(),
            self.plain(),
            self.written_as(raw),
            again.made_of(raw),
        ensures
            Self::refusal(raw) is None,
            self.same_as(again),
    {
        lemma_optional_round_trip::<Title>(self.title, raw.title, again.title);
        lemma_optional_round_trip::<CommentContent>(self.content, raw.content, again.content);
    }
}

/// A request to hide or show a comment, as it comes off the wire: nothing in it has been checked.
#[derive(Clone, Copy, PartialEq, Debug)]
pub struct RawHideCommentPayload {
    pub hidden: bool,
}

/// A request to hide or show a comment, every field of which has passed its rule.
#[derive(PartialEq, Debug)]
pub struct HideCommentPayload {
    pub hidden: bool,
}

impl FromRaw<RawHideCommentPayload> for HideCommentPayload {
    open spec fn refusal(raw: RawHideCommentPayload) -> Option<ValidationError> {
        None
    }

    open spec fn made_of(&self, raw: RawHideCommentPayload) -> bool {
        &&& self.hidden == raw.hidden
    }

    fn from_raw(raw: RawHideCommentPayload) -> (made: Result<Self, ValidationError>) {
        Self::try_from(raw)
    }
}

impl HideCommentPayload {
    /// Converts the raw payload field by field, in the order of declaration:
    /// the first field that fails its rule gives the reason.
    /// No field of it is held to a rule, so the conversion always succeeds.
    pub fn try_from(raw: RawHideCommentPayload) -> (made: Result<Self, ValidationError>)
        ensures
            match made {
                Ok(value) => Self::refusal(raw) is None && value.made_of(raw),
                Err(reason) => Self::refusal(raw) == Some(reason),
            },
    {
        let hidden = raw.hidden;
        Ok(HideCommentPayload { hidden })
    }

    /// Whether every text in the payload is one that passed its rule.
    pub open spec fn well_formed(&self) -> bool {
        true
    }

    /// Whether no text in the payload holds a special character.
    pub open spec fn plain(&self) -> bool {
        true
    }

    /// Whether `raw` is what the payload is written as on the wire.
    pub open spec fn written_as(&self, raw: RawHideCommentPayload) -> bool {
        &&& raw.hidden == self.hidden
    }

    /// Whether the two payloads hold the same in every field.
    pub open spec fn same_as(&self, other: Self) -> bool {
        &&& self.hidden == other.hidden
    }

    /// A payload without special characters that is written on the wire and
    /// converted again is not refused, and comes out the same.
    pub proof fn lemma_round_trip(self, raw: RawHideCommentPayload, again: Self)
        requires
            self.well_formed(),
            self.plain(),
            self.written_as(raw),
            again.made_of(raw),
        ensures
            Self::refusal(raw) is None,
            self.same_as(again),
    {
    }
}

/// A request to set the avatar of a user, as it comes off the wire: nothing in it has been checked.
#[derive(Clone, Copy, PartialEq, Debug)]
pub struct RawUploadAvatarPayload<'a> {
    pub user_id: u32,
    pub avatar: &'a str,
}

/// A request to set the avatar of a user, every field of which has passed its rule.
#[derive(PartialEq, Debug)]
pub struct UploadAvatarPayload<'a> {
    pub user_id: UserId,
    pub avatar: &'a str,
}

impl<'a> FromRaw<RawUploadAvatarPayload<'a>> for UploadAvatarPayload<'a> {
    open spec fn refusal(raw: RawUploadAvatarPayload<'a>) -> Option<ValidationError> {
        None
    }

    open spec fn made_of(&self, raw: RawUploadAvatarPayload<'a>) -> bool {
        &&& self.user_id@ == raw.user_id
        &&& self.avatar@ == raw.avatar@
    }

    fn from_raw(raw: RawUploadAvatarPayload<'a>) -> (made: Result<Self, ValidationError>) {
        Self::try_from(raw)
    }
}

impl<'a> UploadAvatarPayload<'a> {
    /// Converts the raw payload field by field, in the order of declaration:
    /// the first field that fails its rule gives the reason.
    /// No field of it is held to a rule, so the conversion always succeeds.
    pub fn try_from(raw: RawUploadAvatarPayload<'a>) -> (made: Result<Self, ValidationError>)
        ensures
            match made {
                Ok(value) => Self::refusal(raw) is None && value.made_of(raw),
                Err(reason) => Self::refusal(raw) == Some(reason),
            },
    {
        let user_id = UserId::from(raw.user_id);
        let avatar = raw.avatar;
        Ok(UploadAvatarPayload { user_id, avatar })
    }

    /// Whether every text in the payload is one that passed its rule.
    pub open spec fn well_formed(&self) -> bool {
        true
    }

    /// Whether no text in the payload holds a special character.
    pub open spec fn plain(&self) -> bool {
        true
    }

    /// Whether `raw` is what the payload is written as on the wire.
    pub open spec fn written_as(&self, raw: RawUploadAvatarPayload<'a>) -> bool {
        &&& raw.user_id == self.user_id@
        &&& raw.avatar@ == self.avatar@
    }

    /// Whether the two payloads hold the same in every field.
    pub open spec fn same_as(&self, other: Self) -> bool {
        &&& self.user_id@ == other.user_id@
        &&& self.avatar@ == other.avatar@
    }

    /// A payload without special characters that is written on the wire and
    /// converted again is not refused, and comes out the same.
    pub proof fn lemma_round_trip(self, raw: RawUploadAvatarPayload<'a>, again: Self)
        requires
            self.well_formed(),
            self.plain(),
            self.written_as(raw),
            again.made_of(raw),
        ensures
            Self::refusal(raw) is None,
            self.same_as(again),
    {
    }
}

} // verus!

//! The responses a user will get on requests to the content-database

use vstd::prelude::*;
use crate::valid::convert::{
    all_made_of, convert_all, description_failure, failure, first_failure, is_kept, keeps,
    lemma_description_round_trip, lemma_required_round_trip, refusal_of_all, required,
    required_description, same, same_id, same_optional_id, written, FromRaw,
};
use crate::valid::fields::{CommentContent, Description, Title, Username};
use crate::valid::ids::{CategoryId, CommentId, ThreadId, UserId};
use crate::valid::rules::{byte_len, is_plain};
use crate::valid::ValidationError;

verus! {

/// All the successful responses to a content request, as they come off the wire.
#[derive(PartialEq, Debug)]
pub enum RawContentRequestSuccess<'a> {
    Category(RawCategoryPayload<'a>),
    Categories(Vec<RawCategoryPayload<'a>>),
    Thread(RawThreadPayload<'a>),
    Threads(Vec<RawThreadPayload<'a>>),
    Comment(RawCommentPayload<'a>),
    Comments(Vec<RawCommentPayload<'a>>),
    User(RawUserPayload<'a>),
    Users(Vec<RawUserPayload<'a>>),
}

/// All the successful responses to a content request, with every payload checked.
#[derive(PartialEq, Debug)]
pub enum ContentRequestSuccess {
    Category(CategoryPayload),
    Categories(Vec<CategoryPayload>),
    Thread(ThreadPayload),
    Threads(Vec<ThreadPayload>),
    Comment(CommentPayload),
    Comments(Vec<CommentPayload>),
    User(UserPayload),
    Users(Vec<UserPayload>),
}

impl<'a> FromRaw<RawContentRequestSuccess<'a>> for ContentRequestSuccess {
    open spec fn refusal(raw: RawContentRequestSuccess<'a>) -> Option<ValidationError> {
        match raw {
            RawContentRequestSuccess::Category(p) => CategoryPayload::refusal(p),
            RawContentRequestSuccess::Categories(p) =>
                refusal_of_all::<RawCategoryPayload<'a>, CategoryPayload>(p@),
            RawContentRequestSuccess::Thread(p) => ThreadPayload::refusal(p),
            RawContentRequestSuccess::Threads(p) =>
                refusal_of_all::<RawThreadPayload<'a>, ThreadPayload>(p@),
            RawContentRequestSuccess::Comment(p) => CommentPayload::refusal(p),
            RawContentRequestSuccess::Comments(p) =>
                refusal_of_all::<RawCommentPayload<'a>, CommentPayload>(p@),
            RawContentRequestSuccess::User(p) => UserPayload::refusal(p),
            RawContentRequestSuccess::Users(p) =>
                refusal_of_all::<RawUserPayload<'a>, UserPayload>(p@),
        }
    }

    open spec fn made_of(&self, raw: RawContentRequestSuccess<'a>) -> bool {
        match (*self, raw) {
            (ContentRequestSuccess::Category(v), RawContentRequestSuccess::Category(p)) =>
                v.made_of(p),
            (ContentRequestSuccess::Categories(v), RawContentRequestSuccess::Categories(p)) =>
                all_made_of(v@, p@),
            (ContentRequestSuccess::Thread(v), RawContentRequestSuccess::Thread(p)) => v.made_of(p),
            (ContentRequestSuccess::Threads(v), RawContentRequestSuccess::Threads(p)) =>
                all_made_of(v@, p@),
            (ContentRequestSuccess::Comment(v), RawContentRequestSuccess::Comment(p)) =>
                v.made_of(p),
            (ContentRequestSuccess::Comments(v), RawContentRequestSuccess::Comments(p)) =>
                all_made_of(v@, p@),
            (ContentRequestSuccess::User(v), RawContentRequestSuccess::User(p)) => v.made_of(p),
            (ContentRequestSuccess::Users(v), RawContentRequestSuccess::Users(p)) =>
                all_made_of(v@, p@),
            _ => false,
        }
    }

    fn from_raw(raw: RawContentRequestSuccess<'a>) -> (made: Result<Self, ValidationError>) {
        Self::try_from(raw)
    }
}

impl ContentRequestSuccess {
    /// Converts the payload of whichever variant `raw` is, and keeps the
    /// variant.
    pub fn try_from<'a>(raw: RawContentRequestSuccess<'a>) -> (made: Result<Self, ValidationError>)
        ensures
            match made {
                Ok(value) => Self::refusal(raw) is None && value.made_of(raw),
                Err(reason) => Self::refusal(raw) == Some(reason),
            },
    {
        match raw {
            RawContentRequestSuccess::Category(p) => match CategoryPayload::try_from(p) {
                Ok(v) => Ok(ContentRequestSuccess::Category(v)),
                Err(reason) => Err(reason),
            },
            RawContentRequestSuccess::Categories(p) => {
                let list = convert_all::<RawCategoryPayload<'a>, CategoryPayload>(&p);
                match list {
                    Ok(v) => Ok(ContentRequestSuccess::Categories(v)),
                    Err(reason) => Err(reason),
                }
            },
            RawContentRequestSuccess::Thread(p) => match ThreadPayload::try_from(p) {
                Ok(v) => Ok(ContentRequestSuccess::Thread(v)),
                Err(reason) => Err(reason),
            },
            RawContentRequestSuccess::Threads(p) => {
                let list = convert_all::<RawThreadPayload<'a>, ThreadPayload>(&p);
                match list {
                    Ok(v) => Ok(ContentRequestSuccess::Threads(v)),
                    Err(reason) => Err(reason),
                }
            },
            RawContentRequestSuccess::Comment(p) => match CommentPayload::try_from(p) {
                Ok(v) => Ok(ContentRequestSuccess::Comment(v)),
                Err(reason) => Err(reason),
            },
            RawContentRequestSuccess::Comments(p) => {
                let list = convert_all::<RawCommentPayload<'a>, CommentPayload>(&p);
                match list {
                    Ok(v) => Ok(ContentRequestSuccess::Comments(v)),
                    Err(reason) => Err(reason),
                }
            },
            RawContentRequestSuccess::User(p) => match UserPayload::try_from(p) {
                Ok(v) => Ok(ContentRequestSuccess::User(v)),
                Err(reason) => Err(reason),
            },
            RawContentRequestSuccess::Users(p) => {
                let list = convert_all::<RawUserPayload<'a>, UserPayload>(&p);
                match list {
                    Ok(v) => Ok(ContentRequestSuccess::Users(v)),
                    Err(reason) => Err(reason),
                }
            },
        }
    }
}

/// All the unsuccessful responses to a content request
#[derive(Clone, Copy, PartialEq, PartialOrd, Eq, Structural, Debug)]
pub enum ContentRequestError {
    /// The content is hidden
    Hidden,
    /// An invalid id was passed
    InvalidId,
    /// The token is missing from the cookies
    MissingToken,
    /// An invalid token was passed
    InvalidToken,
    /// An invalid query was passed
    InvalidQuery,
}

/// A category, as it comes off the wire: nothing in it has been checked.
#[derive(Clone, Copy, PartialEq, PartialOrd, Debug)]
pub struct RawCategoryPayload<'a> {
    pub title: &'a str,
    pub description: &'a str,
    pub id: u32,
}

/// A category, every field of which has passed its rule.
#[derive(PartialEq, PartialOrd, Debug)]
pub struct CategoryPayload {
    pub title: Title,
    pub description: Description,
    pub id: CategoryId,
}

impl<'a> FromRaw<RawCategoryPayload<'a>> for CategoryPayload {
    open spec fn refusal(raw: RawCategoryPayload<'a>) -> Option<ValidationError> {
        first_failure(
            failure::<Title>(raw.title@),
            description_failure(raw.description@),
        )
    }

    open spec fn made_of(&self, raw: RawCategoryPayload<'a>) -> bool {
        &&& keeps(self.title, raw.title)
        &&& keeps(self.description, raw.description)
        &&& self.id@ == raw.id
    }

    fn from_raw(raw: RawCategoryPayload<'a>) -> (made: Result<Self, ValidationError>) {
        Self::try_from(raw)
    }
}

impl CategoryPayload {
    /// Converts the raw payload field by field, in the order of declaration:
    /// the first field that fails its rule gives the reason.
    pub fn try_from<'a>(raw: RawCategoryPayload<'a>) -> (made: Result<Self, ValidationError>)
        ensures
            match made {
                Ok(value) => Self::refusal(raw) is None && value.made_of(raw),
                Err(reason) => Self::refusal(raw) == Some(reason),
            },
    {
        let title = match required::<Title>(raw.title) {
            Ok(value) => value,
            Err(reason) => {
                return Err(reason);
            },
        };
        let description = match required_description(raw.description) {
            Ok(value) => value,
            Err(reason) => {
                return Err(reason);
            },
        };
        let id = CategoryId::from(raw.id);
        Ok(CategoryPayload { title, description, id })
    }

    /// Whether every text in the payload is one that passed its rule.
    pub open spec fn well_formed(&self) -> bool {
        &&& is_kept::<Title>(self.title@)
        &&& is_kept::<Description>(self.description@)
        &&& byte_len(self.description@) > 0
    }

    /// Whether no text in the payload holds a special character.
    pub open spec fn plain(&self) -> bool {
        &&& is_plain(self.title@)
        &&& is_plain(self.description@)
    }

    /// Whether `raw` is what the payload is written as on the wire.
    pub open spec fn written_as<'a>(&self, raw: RawCategoryPayload<'a>) -> bool {
        &&& written(self.title, raw.title)
        &&& written(self.description, raw.description)
        &&& raw.id == self.id@
    }

    /// Whether the two payloads hold the same in every field.
    pub open spec fn same_as(&self, other: Self) -> bool {
        &&& same(self.title, other.title)
        &&& same(self.description, other.description)
        &&& self.id@ == other.id@
    }

    /// A payload without special characters that is written on the wire and
    /// converted again is not refused, and comes out the same.
    pub proof fn lemma_round_trip<'a>(self, raw: RawCategoryPayload<'a>, again: Self)
        requires
            self.well_formed(),
            self.plain(),
            self.written_as(raw),
            again.made_of(raw),
        ensures
            Self::refusal(raw) is None,
            self.same_as(again),
    {
        lemma_required_round_trip::<Title>(self.title, raw.title, again.title);
        lemma_description_round_trip(self.description, raw.description, again.description);
    }
}

/// A thread, as it comes off the wire: nothing in it has been checked.
#[derive(Clone, Copy, PartialEq, PartialOrd, Debug)]
pub struct RawThreadPayload<'a> {
    pub title: &'a str,
    pub description: &'a str,
    pub id: u32,
    pub category_id: u32,
    pub timestamp: i64,
}

/// A thread, every field of which has passed its rule.
#[derive(PartialEq, PartialOrd, Debug)]
pub struct ThreadPayload {
    pub title: Title,
    pub description: Description,
    pub id: ThreadId,
    pub category_id: CategoryId,
    pub timestamp: i64,
}

impl<'a> FromRaw<RawThreadPayload<'a>> for ThreadPayload {
    open spec fn refusal(raw: RawThreadPayload<'a>) -> Option<ValidationError> {
        first_failure(
            failure::<Title>(raw.title@),
            description_failure(raw.description@),
        )
    }

    open spec fn made_of(&self, raw: RawThreadPayload<'a>) -> bool {
        &&& keeps(self.title, raw.title)
        &&& keeps(self.description, raw.description)
        &&& self.id@ == raw.id
        &&& self.category_id@ == raw.category_id
        &&& self.timestamp == raw.timestamp
    }

    fn from_raw(raw: RawThreadPayload<'a>) -> (made: Result<Self, ValidationError>) {
        Self::try_from(raw)
    }
}

impl ThreadPayload {
    /// Converts the raw payload field by field, in the order of declaration:
    /// the first field that fails its rule gives the reason.
    pub fn try_from<'a>(raw: RawThreadPayload<'a>) -> (made: Result<Self, ValidationError>)
        ensures
            match made {
                Ok(value) => Self::refusal(raw) is None && value.made_of(raw),
                Err(reason) => Self::refusal(raw) == Some(reason),
            },
    {
        let title = match required::<Title>(raw.title) {
            Ok(value) => value,
            Err(reason) => {
                return Err(reason);
            },
        };
        let description = match required_description(raw.description) {
            Ok(value) => value,
            Err(reason) => {
                return Err(reason);
            },
        };
        let id = ThreadId::from(raw.id);
        let category_id = CategoryId::from(raw.category_id);
        let timestamp = raw.timestamp;
        Ok(ThreadPayload { title, description, id, category_id, timestamp })
    }

    /// Whether every text in the payload is one that passed its rule.
    pub open spec fn well_formed(&self) -> bool {
        &&& is_kept::<Title>(self.title@)
        &&& is_kept::<Description>(self.description@)
        &&& byte_len(self.description@) > 0
    }

    /// Whether no text in the payload holds a special character.
    pub open spec fn plain(&self) -> bool {
        &&& is_plain(self.title@)
        &&& is_plain(self.description@)
    }

    /// Whether `raw` is what the payload is written as on the wire.
    pub open spec fn written_as<'a>(&self, raw: RawThreadPayload<'a>) -> bool {
        &&& written(self.title, raw.title)
        &&& written(self.description, raw.description)
        &&& raw.id == self.id@
        &&& raw.category_id == self.category_id@
        &&& raw.timestamp == self.timestamp
    }

    /// Whether the two payloads hold the same in every field.
    pub open spec fn same_as(&self, other: Self) -> bool {
        &&& same(self.title, other.title)
        &&& same(self.description, other.description)
        &&& self.id@ == other.id@
        &&& self.category_id@ == other.category_id@
        &&& self.timestamp == other.timestamp
    }

    /// A payload without special characters that is written on the wire and
    /// converted again is not refused, and comes out the same.
    pub proof fn lemma_round_trip<'a>(self, raw: RawThreadPayload<'a>, again: Self)
        requires
            self.well_formed(),
            self.plain(),
            self.written_as(raw),
            again.made_of(raw),
        ensures
            Self::refusal(raw) is None,
            self.same_as(again),
    {
        lemma_required_round_trip::<Title>(self.title, raw.title, again.title);
        lemma_description_round_trip(self.description, raw.description, again.description);
    }
}

/// A comment, as it comes off the wire: nothing in it has been checked.
#[derive(Clone, Copy, PartialEq, PartialOrd, Debug)]
pub struct RawCommentPayload<'a> {
    pub title: &'a str,
    pub content: &'a str,
    pub id: u32,
    pub thread_id: u32,
    pub timestamp: i64,
    pub parent_id: Option<u32>,
}

/// A comment, every field of which has passed its rule.
#[derive(PartialEq, PartialOrd, Debug)]
pub struct CommentPayload {
    pub title: Title,
    pub content: CommentContent,
    pub id: CommentId,
    pub thread_id: ThreadId,
    pub timestamp: i64,
    pub parent_id: Option<CommentId>,
}

impl<'a> FromRaw<RawCommentPayload<'a>> for CommentPayload {
    open spec fn refusal(raw: RawCommentPayload<'a>) -> Option<ValidationError> {
        first_failure(
            failure::<Title>(raw.title@),
            failure::<CommentContent>(raw.content@),
        )
    }

    open spec fn made_of(&self, raw: RawCommentPayload<'a>) -> bool {
        &&& keeps(self.title, raw.title)
        &&& keeps(self.content, raw.content)
        &&& self.id@ == raw.id
        &&& self.thread_id@ == raw.thread_id
        &&& self.timestamp == raw.timestamp
        &&& same_id(self.parent_id, raw.parent_id)
    }

    fn from_raw(raw: RawCommentPayload<'a>) -> (made: Result<Self, ValidationError>) {
        Self::try_from(raw)
    }
}

impl CommentPayload {
    /// Converts the raw payload field by field, in the order of declaration:
    /// the first field that fails its rule gives the reason.
    pub fn try_from<'a>(raw: RawCommentPayload<'a>) -> (made: Result<Self, ValidationError>)
        ensures
            match made {
                Ok(value) => Self::refusal(raw) is None && value.made_of(raw),
                Err(reason) => Self::refusal(raw) == Some(reason),
            },
    {
        let title = match required::<Title>(raw.title) {
            Ok(value) => value,
            Err(reason) => {
                return Err(reason);
            },
        };
        let content = match required::<CommentContent>(raw.content) {
            Ok(value) => value,
            Err(reason) => {
                return Err(reason);
            },
        };
        let id = CommentId::from(raw.id);
        let thread_id = ThreadId::from(raw.thread_id);
        let timestamp = raw.timestamp;
        let parent_id = match raw.parent_id {
            Some(n) => Some(CommentId::from(n)),
            None => None,
        };
        Ok(CommentPayload { title, content, id, thread_id, timestamp, parent_id })
    }

    /// Whether every text in the payload is one that passed its rule.
    pub open spec fn well_formed(&self) -> bool {
        &&& is_kept::<Title>(self.title@)
        &&& is_kept::<CommentContent>(self.content@)
    }

    /// Whether no text in the payload holds a special character.
    pub open spec fn plain(&self) -> bool {
        &&& is_plain(self.title@)
        &&& is_plain(self.content@)
    }

    /// Whether `raw` is what the payload is written as on the wire.
    pub open spec fn written_as<'a>(&self, raw: RawCommentPayload<'a>) -> bool {
        &&& written(self.title, raw.title)
        &&& written(self.content, raw.content)
        &&& raw.id == self.id@
        &&& raw.thread_id == self.thread_id@
        &&& raw.timestamp == self.timestamp
        &&& same_id(self.parent_id, raw.parent_id)
    }

    /// Whether the two payloads hold the same in every field.
    pub open spec fn same_as(&self, other: Self) -> bool {
        &&& same(self.title, other.title)
        &&& same(self.content, other.content)
        &&& self.id@ == other.id@
        &&& self.thread_id@ == other.thread_id@
        &&& self.timestamp == other.timestamp
        &&& same_optional_id(self.parent_id, other.parent_id)
    }

    /// A payload without special characters that is written on the wire and
    /// converted again is not refused, and comes out the same.
    pub proof fn lemma_round_trip<'a>(self, raw: RawCommentPayload<'a>, again: Self)
        requires
            self.well_formed(),
            self.plain(),
            self.written_as(raw),
            again.made_of(raw),
        ensures
            Self::refusal(raw) is None,
            self.same_as(again),
    {
        lemma_required_round_trip::<Title>(self.title, raw.title, again.title);
        lemma_required_round_trip::<CommentContent>(self.content, raw.content, again.content);
    }
}

/// A user, as it comes off the wire: nothing in it has been checked.
#[derive(Clone, Copy, PartialEq, PartialOrd, Debug)]
pub struct RawUserPayload<'a> {
    pub username: &'a str,
    pub description: &'a str,
    pub id: u32,
}

/// A user, every field of which has passed its rule.
#[derive(PartialEq, PartialOrd, Debug)]
pub struct UserPayload {
    pub username: Username,
    pub description: Description,
    pub id: UserId,
}

impl<'a> FromRaw<RawUserPayload<'a>> for UserPayload {
    open spec fn refusal(raw: RawUserPayload<'a>) -> Option<ValidationError> {
        first_failure(
            failure::<Username>(raw.username@),
            description_failure(raw.description@),
        )
    }

    open spec fn made_of(&self, raw: RawUserPayload<'a>) -> bool {
        &&& keeps(self.username, raw.username)
        &&& keeps(self.description, raw.description)
        &&& self.id@ == raw.id
    }

    fn from_raw(raw: RawUserPayload<'a>) -> (made: Result<Self, ValidationError>) {
        Self::try_from(raw)
    }
}

impl UserPayload {
    /// Converts the raw payload field by field, in the order of declaration:
    /// the first field that fails its rule gives the reason.
    pub fn try_from<'a>(raw: RawUserPayload<'a>) -> (made: Result<Self, ValidationError>)
        ensures
            match made {
                Ok(value) => Self::refusal(raw) is None && value.made_of(raw),
                Err(reason) => Self::refusal(raw) == Some(reason),
            },
    {
        let username = match required::<Username>(raw.username) {
            Ok(value) => value,
            Err(reason) => {
                return Err(reason);
            },
        };
        let description = match required_description(raw.description) {
            Ok(value) => value,
            Err(reason) => {
                return Err(reason);
            },
        };
        let id = UserId::from(raw.id);
        Ok(UserPayload { username, description, id })
    }

    /// Whether every text in the payload is one that passed its rule.
    pub open spec fn well_formed(&self) -> bool {
        &&& is_kept::<Username>(self.username@)
        &&& is_kept::<Description>(self.description@)
        &&& byte_len(self.description@) > 0
    }

    /// Whether no text in the payload holds a special character.
    pub open spec fn plain(&self) -> bool {
        &&& is_plain(self.username@)
        &&& is_plain(self.description@)
    }

    /// Whether `raw` is what the payload is written as on the wire.
    pub open spec fn written_as<'a>(&self, raw: RawUserPayload<'a>) -> bool {
        &&& written(self.username, raw.username)
        &&& written(self.description, raw.description)
        &&& raw.id == self.id@
    }

    /// Whether the two payloads hold the same in every field.
    pub open spec fn same_as(&self, other: Self) -> bool {
        &&& same(self.username, other.username)
        &&& same(self.description, other.description)
        &&& self.id@ == other.id@
    }

    /// A payload without special characters that is written on the wire and
    /// converted again is not refused, and comes out the same.
    pub proof fn lemma_round_trip<'a>(self, raw: RawUserPayload<'a>, again: Self)
        requires
            self.well_formed(),
            self.plain(),
            self.written_as(raw),
            again.made_of(raw),
        ensures
            Self::refusal(raw) is None,
            self.same_as(again),
    {
        lemma_required_round_trip::<Username>(self.username, raw.username, again.username);
        lemma_description_round_trip(self.description, raw.description, again.description);
    }
}

} // verus!

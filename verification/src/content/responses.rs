//! The responses a user will get on requests to the content-database

use vstd::prelude::*;
use chrono::naive::NaiveDateTime;
use crate::valid::convert::{
    all_made_of, convert_all, failure, first_failure, is_kept, keeps, keeps_optional,
    kept_optional, lemma_optional_round_trip, lemma_required_round_trip, optional,
    optional_failure, plain_optional, refusal_of_all, required, same, same_id, same_optional,
    same_optional_id, same_optional_text, same_text, written, written_optional, FromRaw,
};
use crate::valid::fields::{CommentContent, Description, Title, Username};
use crate::valid::ids::{CategoryId, CommentId, ThreadId, UserId};
use crate::valid::rules::is_plain;
use crate::valid::ValidationError;

verus! {

/// A date and a time of day without a time zone, as the `chrono` crate
/// keeps it. The library carries such a value through and never looks into
/// it.
#[verifier::external_type_specification]
#[verifier::external_body]
pub struct ExNaiveDateTime(chrono::naive::NaiveDateTime);

/// All the successful responses to a `ContentRequest`, as they come off the wire.
#[derive(PartialEq, Debug)]
pub enum RawContentSuccess<'a> {
    Category(RawCategoryPayload<'a>),
    Categories(Vec<RawCategoryPayload<'a>>),
    Thread(RawThreadPayload<'a>),
    Threads(Vec<RawThreadPayload<'a>>),
    Comment(RawCommentPayload<'a>),
    Comments(Vec<RawCommentPayload<'a>>),
    User(RawUserPayload<'a>),
    Users(Vec<RawUserPayload<'a>>),
    SearchResult(RawSearchResultsPayload<'a>),
}

/// All the successful responses to a `ContentRequest`, with every payload checked.
#[derive(PartialEq, Debug)]
pub enum ContentSuccess {
    Category(CategoryPayload),
    Categories(Vec<CategoryPayload>),
    Thread(ThreadPayload),
    Threads(Vec<ThreadPayload>),
    Comment(CommentPayload),
    Comments(Vec<CommentPayload>),
    User(UserPayload),
    Users(Vec<UserPayload>),
    SearchResult(SearchResultsPayload),
}

impl<'a> FromRaw<RawContentSuccess<'a>> for ContentSuccess {
    open spec fn refusal(raw: RawContentSuccess<'a>) -> Option<ValidationError> {
        match raw {
            RawContentSuccess::Category(p) => CategoryPayload::refusal(p),
            RawContentSuccess::Categories(p) =>
                refusal_of_all::<RawCategoryPayload<'a>, CategoryPayload>(p@),
            RawContentSuccess::Thread(p) => ThreadPayload::refusal(p),
            RawContentSuccess::Threads(p) =>
                refusal_of_all::<RawThreadPayload<'a>, ThreadPayload>(p@),
            RawContentSuccess::Comment(p) => CommentPayload::refusal(p),
            RawContentSuccess::Comments(p) =>
                refusal_of_all::<RawCommentPayload<'a>, CommentPayload>(p@),
            RawContentSuccess::User(p) => UserPayload::refusal(p),
            RawContentSuccess::Users(p) => refusal_of_all::<RawUserPayload<'a>, UserPayload>(p@),
            RawContentSuccess::SearchResult(p) => SearchResultsPayload::refusal(p),
        }
    }

    open spec fn made_of(&self, raw: RawContentSuccess<'a>) -> bool {
        match (*self, raw) {
            (ContentSuccess::Category(v), RawContentSuccess::Category(p)) => v.made_of(p),
            (ContentSuccess::Categories(v), RawContentSuccess::Categories(p)) =>
                all_made_of(v@, p@),
            (ContentSuccess::Thread(v), RawContentSuccess::Thread(p)) => v.made_of(p),
            (ContentSuccess::Threads(v), RawContentSuccess::Threads(p)) => all_made_of(v@, p@),
            (ContentSuccess::Comment(v), RawContentSuccess::Comment(p)) => v.made_of(p),
            (ContentSuccess::Comments(v), RawContentSuccess::Comments(p)) => all_made_of(v@, p@),
            (ContentSuccess::User(v), RawContentSuccess::User(p)) => v.made_of(p),
            (ContentSuccess::Users(v), RawContentSuccess::Users(p)) => all_made_of(v@, p@),
            (ContentSuccess::SearchResult(v), RawContentSuccess::SearchResult(p)) => v.made_of(p),
            _ => false,
        }
    }

    fn from_raw(raw: RawContentSuccess<'a>) -> (made: Result<Self, ValidationError>) {
        Self::try_from(raw)
    }
}

impl ContentSuccess {
    /// Converts the payload of whichever variant `raw` is, and keeps the
    /// variant.
    pub fn try_from<'a>(raw: RawContentSuccess<'a>) -> (made: Result<Self, ValidationError>)
        ensures
            match made {
                Ok(value) => Self::refusal(raw) is None && value.made_of(raw),
                Err(reason) => Self::refusal(raw) == Some(reason),
            },
    {
        match raw {
            RawContentSuccess::Category(p) => match CategoryPayload::try_from(p) {
                Ok(v) => Ok(ContentSuccess::Category(v)),
                Err(reason) => Err(reason),
            },
            RawContentSuccess::Categories(p) => {
                let list = convert_all::<RawCategoryPayload<'a>, CategoryPayload>(&p);
                match list {
                    Ok(v) => Ok(ContentSuccess::Categories(v)),
                    Err(reason) => Err(reason),
                }
            },
            RawContentSuccess::Thread(p) => match ThreadPayload::try_from(p) {
                Ok(v) => Ok(ContentSuccess::Thread(v)),
                Err(reason) => Err(reason),
            },
            RawContentSuccess::Threads(p) => {
                let list = convert_all::<RawThreadPayload<'a>, ThreadPayload>(&p);
                match list {
                    Ok(v) => Ok(ContentSuccess::Threads(v)),
                    Err(reason) => Err(reason),
                }
            },
            RawContentSuccess::Comment(p) => match CommentPayload::try_from(p) {
                Ok(v) => Ok(ContentSuccess::Comment(v)),
                Err(reason) => Err(reason),
            },
            RawContentSuccess::Comments(p) => {
                let list = convert_all::<RawCommentPayload<'a>, CommentPayload>(&p);
                match list {
                    Ok(v) => Ok(ContentSuccess::Comments(v)),
                    Err(reason) => Err(reason),
                }
            },
            RawContentSuccess::User(p) => match UserPayload::try_from(p) {
                Ok(v) => Ok(ContentSuccess::User(v)),
                Err(reason) => Err(reason),
            },
            RawContentSuccess::Users(p) => {
                let list = convert_all::<RawUserPayload<'a>, UserPayload>(&p);
                match list {
                    Ok(v) => Ok(ContentSuccess::Users(v)),
                    Err(reason) => Err(reason),
                }
            },
            RawContentSuccess::SearchResult(p) => match SearchResultsPayload::try_from(p) {
                Ok(v) => Ok(ContentSuccess::SearchResult(v)),
                Err(reason) => Err(reason),
            },
        }
    }
}

/// All the unsuccessful responses to a `ContentRequest`
#[derive(Clone, Copy, PartialEq, Eq, Structural, Debug)]
pub enum ContentError {
    /// The content was not found
    MissingContent,
    /// The content is hidden
    HiddenContent,
    /// An internal server error
    InternalServerError,
    /// The search query is invalid
    InvalidSearchQuery,
    /// The id is invalid
    InvalidId,
    /// The content is invalid
    InvalidContent,
}

/// A user, as it comes off the wire: nothing in it has been checked.
#[derive(Clone, Copy, PartialEq, Debug)]
pub struct RawUserPayload<'a> {
    pub id: u32,
    pub username: &'a str,
    pub description: Option<&'a str>,
    pub avatar: Option<&'a str>,
}

/// A user, every field of which has passed its rule.
#[derive(PartialEq, Debug)]
pub struct UserPayload {
    pub id: UserId,
    pub username: Username,
    pub description: Option<Description>,
    pub avatar: Option<String>,
}

impl<'a> FromRaw<RawUserPayload<'a>> for UserPayload {
    open spec fn refusal(raw: RawUserPayload<'a>) -> Option<ValidationError> {
        first_failure(
            failure::<Username>(raw.username@),
            optional_failure::<Description>(raw.description),
        )
    }

    open spec fn made_of(&self, raw: RawUserPayload<'a>) -> bool {
        &&& self.id@ == raw.id
        &&& keeps(self.username, raw.username)
        &&& keeps_optional(self.description, raw.description)
        &&& same_text(self.avatar, raw.avatar)
    }

    fn from_raw(raw: RawUserPayload<'a>) -> (made: Result<Self, ValidationError>) {
        Self::try_from(raw)
    }
}

impl UserPayload {
    /// Converts the raw payload field by field, in the order of declaration:
    /// the first field that fails its rule gives the reason.
    pub fn try_from<'a>(raw: RawUserPayload<'a>) -> (made: Result<Self, ValidationError>)
        ensures
            match made {
                Ok(value) => Self::refusal(raw) is None && value.made_of(raw),
                Err(reason) => Self::refusal(raw) == Some(reason),
            },
    {
        let username = match required::<Username>(raw.username) {
            Ok(value) => value,
            Err(reason) => {
                return Err(reason);
            },
        };
        let description = match optional::<Description>(raw.description) {
            Ok(value) => value,
            Err(reason) => {
                return Err(reason);
            },
        };
        let id = UserId::from(raw.id);
        let avatar = match raw.avatar {
            Some(text) => Some(text.to_owned()),
            None => None,
        };
        Ok(UserPayload { id, username, description, avatar })
    }

    /// Whether every text in the payload is one that passed its rule.
    pub open spec fn well_formed(&self) -> bool {
        &&& is_kept::<Username>(self.username@)
        &&& kept_optional(self.description)
    }

    /// Whether no text in the payload holds a special character.
    pub open spec fn plain(&self) -> bool {
        &&& is_plain(self.username@)
        &&& plain_optional(self.description)
    }

    /// Whether `raw` is what the payload is written as on the wire.
    pub open spec fn written_as<'a>(&self, raw: RawUserPayload<'a>) -> bool {
        &&& raw.id == self.id@
        &&& written(self.username, raw.username)
        &&& written_optional(self.description, raw.description)
        &&& same_text(self.avatar, raw.avatar)
    }

    /// Whether the two payloads hold the same in every field.
    pub open spec fn same_as(&self, other: Self) -> bool {
        &&& self.id@ == other.id@
        &&& same(self.username, other.username)
        &&& same_optional(self.description, other.description)
        &&& same_optional_text(self.avatar, other.avatar)
    }

    /// A payload without special characters that is written on the wire and
    /// converted again is not refused, and comes out the same.
    pub proof fn lemma_round_trip<'a>(self, raw: RawUserPayload<'a>, again: Self)
        requires
            self.well_formed(),
            self.plain(),
            self.written_as(raw),
            again.made_of(raw),
        ensures
            Self::refusal(raw) is None,
            self.same_as(again),
    {
        lemma_required_round_trip::<Username>(self.username, raw.username, again.username);
        lemma_optional_round_trip::<Description>(
            self.description,
            raw.description,
            again.description,
        );
    }
}

/// A category, as it comes off the wire: nothing in it has been checked.
#[derive(Clone, Copy, PartialEq, Debug)]
pub struct RawCategoryPayload<'a> {
    pub id: u32,
    pub title: &'a str,
    pub description: &'a str,
    pub hidden: bool,
}

/// A category, every field of which has passed its rule.
#[derive(PartialEq, Debug)]
pub struct CategoryPayload {
    pub id: CategoryId,
    pub title: Title,
    pub description: Description,
    pub hidden: bool,
}

impl<'a> FromRaw<RawCategoryPayload<'a>> for CategoryPayload {
    open spec fn refusal(raw: RawCategoryPayload<'a>) -> Option<ValidationError> {
        first_failure(
            failure::<Title>(raw.title@),
            failure::<Description>(raw.description@),
        )
    }

    open spec fn made_of(&self, raw: RawCategoryPayload<'a>) -> bool {
        &&& self.id@ == raw.id
        &&& keeps(self.title, raw.title)
        &&& keeps(self.description, raw.description)
        &&& self.hidden == raw.hidden
    }

    fn from_raw(raw: RawCategoryPayload<'a>) -> (made: Result<Self, ValidationError>) {
        Self::try_from(raw)
    }
}

impl CategoryPayload {
    /// Converts the raw payload field by field, in the order of declaration:
    /// the first field that fails its rule gives the reason.
    pub fn try_from<'a>(raw: RawCategoryPayload<'a>) -> (made: Result<Self, ValidationError>)
        ensures
            match made {
                Ok(value) => Self::refusal(raw) is None && value.made_of(raw),
                Err(reason) => Self::refusal(raw) == Some(reason),
            },
    {
        let title = match required::<Title>(raw.title) {
            Ok(value) => value,
            Err(reason) => {
                return Err(reason);
            },
        };
        let description = match required::<Description>(raw.description) {
            Ok(value) => value,
            Err(reason) => {
                return Err(reason);
            },
        };
        let id = CategoryId::from(raw.id);
        let hidden = raw.hidden;
        Ok(CategoryPayload { id, title, description, hidden })
    }

    /// Whether every text in the payload is one that passed its rule.
    pub open spec fn well_formed(&self) -> bool {
        &&& is_kept::<Title>(self.title@)
        &&& is_kept::<Description>(self.description@)
    }

    /// Whether no text in the payload holds a special character.
    pub open spec fn plain(&self) -> bool {
        &&& is_plain(self.title@)
        &&& is_plain(self.description@)
    }

    /// Whether `raw` is what the payload is written as on the wire.
    pub open spec fn written_as<'a>(&self, raw: RawCategoryPayload<'a>) -> bool {
        &&& raw.id == self.id@
        &&& written(self.title, raw.title)
        &&& written(self.description, raw.description)
        &&& raw.hidden == self.hidden
    }

    /// Whether the two payloads hold the same in every field.
    pub open spec fn same_as(&self, other: Self) -> bool {
        &&& self.id@ == other.id@
        &&& same(self.title, other.title)
        &&& same(self.description, other.description)
        &&& self.hidden == other.hidden
    }

    /// A payload without special characters that is written on the wire and
    /// converted again is not refused, and comes out the same.
    pub proof fn lemma_round_trip<'a>(self, raw: RawCategoryPayload<'a>, again: Self)
        requires
            self.well_formed(),
            self.plain(),
            self.written_as(raw),
            again.made_of(raw),
        ensures
            Self::refusal(raw) is None,
            self.same_as(again),
    {
        lemma_required_round_trip::<Title>(self.title, raw.title, again.title);
        lemma_required_round_trip::<Description>(
            self.description,
            raw.description,
            again.description,
        );
    }
}

/// A thread, as it comes off the wire: nothing in it has been checked.
#[derive(Clone, Copy, PartialEq, Debug)]
pub struct RawThreadPayload<'a> {
    pub id: u32,
    pub category_id: u32,
    pub user_id: u32,
    pub title: &'a str,
    pub description: &'a str,
    pub timestamp: NaiveDateTime,
    pub hidden: bool,
}

/// A thread, every field of which has passed its rule.
#[derive(PartialEq, Debug)]
pub struct ThreadPayload {
    pub id: ThreadId,
    pub category_id: CategoryId,
    pub user_id: UserId,
    pub title: Title,
    pub description: Description,
    pub timestamp: NaiveDateTime,
    pub hidden: bool,
}

impl<'a> FromRaw<RawThreadPayload<'a>> for ThreadPayload {
    open spec fn refusal(raw: RawThreadPayload<'a>) -> Option<ValidationError> {
        first_failure(
            failure::<Title>(raw.title@),
            failure::<Description>(raw.description@),
        )
    }

    open spec fn made_of(&self, raw: RawThreadPayload<'a>) -> bool {
        &&& self.id@ == raw.id
        &&& self.category_id@ == raw.category_id
        &&& self.user_id@ == raw.user_id
        &&& keeps(self.title, raw.title)
        &&& keeps(self.description, raw.description)
        &&& self.timestamp == raw.timestamp
        &&& self.hidden == raw.hidden
    }

    fn from_raw(raw: RawThreadPayload<'a>) -> (made: Result<Self, ValidationError>) {
        Self::try_from(raw)
    }
}

impl ThreadPayload {
    /// Converts the raw payload field by field, in the order of declaration:
    /// the first field that fails its rule gives the reason.
    pub fn try_from<'a>(raw: RawThreadPayload<'a>) -> (made: Result<Self, ValidationError>)
        ensures
            match made {
                Ok(value) => Self::refusal(raw) is None && value.made_of(raw),
                Err(reason) => Self::refusal(raw) == Some(reason),
            },
    {
        let title = match required::<Title>(raw.title) {
            Ok(value) => value,
            Err(reason) => {
                return Err(reason);
            },
        };
        let description = match required::<Description>(raw.description) {
            Ok(value) => value,
            Err(reason) => {
                return Err(reason);
            },
        };
        let id = ThreadId::from(raw.id);
        let category_id = CategoryId::from(raw.category_id);
        let user_id = UserId::from(raw.user_id);
        let timestamp = raw.timestamp;
        let hidden = raw.hidden;
        Ok(ThreadPayload { id, category_id, user_id, title, description, timestamp, hidden })
    }

    /// Whether every text in the payload is one that passed its rule.
    pub open spec fn well_formed(&self) -> bool {
        &&& is_kept::<Title>(self.title@)
        &&& is_kept::<Description>(self.description@)
    }

    /// Whether no text in the payload holds a special character.
    pub open spec fn plain(&self) -> bool {
        &&& is_plain(self.title@)
        &&& is_plain(self.description@)
    }

    /// Whether `raw` is what the payload is written as on the wire.
    pub open spec fn written_as<'a>(&self, raw: RawThreadPayload<'a>) -> bool {
        &&& raw.id == self.id@
        &&& raw.category_id == self.category_id@
        &&& raw.user_id == self.user_id@
        &&& written(self.title, raw.title)
        &&& written(self.description, raw.description)
        &&& raw.timestamp == self.timestamp
        &&& raw.hidden == self.hidden
    }

    /// Whether the two payloads hold the same in every field.
    pub open spec fn same_as(&self, other: Self) -> bool {
        &&& self.id@ == other.id@
        &&& self.category_id@ == other.category_id@
        &&& self.user_id@ == other.user_id@
        &&& same(self.title, other.title)
        &&& same(self.description, other.description)
        &&& self.timestamp == other.timestamp
        &&& self.hidden == other.hidden
    }

    /// A payload without special characters that is written on the wire and
    /// converted again is not refused, and comes out the same.
    pub proof fn lemma_round_trip<'a>(self, raw: RawThreadPayload<'a>, again: Self)
        requires
            self.well_formed(),
            self.plain(),
            self.written_as(raw),
            again.made_of(raw),
        ensures
            Self::refusal(raw) is None,
            self.same_as(again),
    {
        lemma_required_round_trip::<Title>(self.title, raw.title, again.title);
        lemma_required_round_trip::<Description>(
            self.description,
            raw.description,
            again.description,
        );
    }
}

/// A comment, as it comes off the wire: nothing in it has been checked.
#[derive(Clone, Copy, PartialEq, Debug)]
pub struct RawCommentPayload<'a> {
    pub id: u32,
    pub thread_id: u32,
    pub parent_id: Option<u32>,
    pub user_id: u32,
    pub content: &'a str,
    pub timestamp: NaiveDateTime,
    pub hidden: bool,
}

/// A comment, every field of which has passed its rule.
#[derive(PartialEq, Debug)]
pub struct CommentPayload {
    pub id: CommentId,
    pub thread_id: ThreadId,
    pub parent_id: Option<CommentId>,
    pub user_id: UserId,
    pub content: CommentContent,
    pub timestamp: NaiveDateTime,
    pub hidden: bool,
}

impl<'a> FromRaw<RawCommentPayload<'a>> for CommentPayload {
    open spec fn refusal(raw: RawCommentPayload<'a>) -> Option<ValidationError> {
        failure::<CommentContent>(raw.content@)
    }

    open spec fn made_of(&self, raw: RawCommentPayload<'a>) -> bool {
        &&& self.id@ == raw.id
        &&& self.thread_id@ == raw.thread_id
        &&& same_id(self.parent_id, raw.parent_id)
        &&& self.user_id@ == raw.user_id
        &&& keeps(self.content, raw.content)
        &&& self.timestamp == raw.timestamp
        &&& self.hidden == raw.hidden
    }

    fn from_raw(raw: RawCommentPayload<'a>) -> (made: Result<Self, ValidationError>) {
        Self::try_from(raw)
    }
}

impl CommentPayload {
    /// Converts the raw payload field by field, in the order of declaration:
    /// the first field that fails its rule gives the reason.
    pub fn try_from<'a>(raw: RawCommentPayload<'a>) -> (made: Result<Self, ValidationError>)
        ensures
            match made {
                Ok(value) => Self::refusal(raw) is None && value.made_of(raw),
                Err(reason) => Self::refusal(raw) == Some(reason),
            },
    {
        let content = match required::<CommentContent>(raw.content) {
            Ok(value) => value,
            Err(reason) => {
                return Err(reason);
            },
        };
        let id = CommentId::from(raw.id);
        let thread_id = ThreadId::from(raw.thread_id);
        let parent_id = match raw.parent_id {
            Some(n) => Some(CommentId::from(n)),
            None => None,
        };
        let user_id = UserId::from(raw.user_id);
        let timestamp = raw.timestamp;
        let hidden = raw.hidden;
        Ok(CommentPayload { id, thread_id, parent_id, user_id, content, timestamp, hidden })
    }

    /// Whether every text in the payload is one that passed its rule.
    pub open spec fn well_formed(&self) -> bool {
        &&& is_kept::<CommentContent>(self.content@)
    }

    /// Whether no text in the payload holds a special character.
    pub open spec fn plain(&self) -> bool {
        &&& is_plain(self.content@)
    }

    /// Whether `raw` is what the payload is written as on the wire.
    pub open spec fn written_as<'a>(&self, raw: RawCommentPayload<'a>) -> bool {
        &&& raw.id == self.id@
        &&& raw.thread_id == self.thread_id@
        &&& same_id(self.parent_id, raw.parent_id)
        &&& raw.user_id == self.user_id@
        &&& written(self.content, raw.content)
        &&& raw.timestamp == self.timestamp
        &&& raw.hidden == self.hidden
    }

    /// Whether the two payloads hold the same in every field.
    pub open spec fn same_as(&self, other: Self) -> bool {
        &&& self.id@ == other.id@
        &&& self.thread_id@ == other.thread_id@
        &&& same_optional_id(self.parent_id, other.parent_id)
        &&& self.user_id@ == other.user_id@
        &&& same(self.content, other.content)
        &&& self.timestamp == other.timestamp
        &&& self.hidden == other.hidden
    }

    /// A payload without special characters that is written on the wire and
    /// converted again is not refused, and comes out the same.
    pub proof fn lemma_round_trip<'a>(self, raw: RawCommentPayload<'a>, again: Self)
        requires
            self.well_formed(),
            self.plain(),
            self.written_as(raw),
            again.made_of(raw),
        ensures
            Self::refusal(raw) is None,
            self.same_as(again),
    {
        lemma_required_round_trip::<CommentContent>(self.content, raw.content, again.content);
    }
}

/// A search result which contains all the elements that matched the search,
/// as it comes off the wire.
#[derive(PartialEq, Debug)]
pub struct RawSearchResultsPayload<'a> {
    pub categories: Vec<RawCategoryPayload<'a>>,
    pub threads: Vec<RawThreadPayload<'a>>,
    pub comments: Vec<RawCommentPayload<'a>>,
    pub users: Vec<RawUserPayload<'a>>,
}

/// A search result which contains all the elements that matched the search
#[derive(PartialEq, Debug)]
pub struct SearchResultsPayload {
    pub categories: Vec<CategoryPayload>,
    pub threads: Vec<ThreadPayload>,
    pub comments: Vec<CommentPayload>,
    pub users: Vec<UserPayload>,
}

impl<'a> FromRaw<RawSearchResultsPayload<'a>> for SearchResultsPayload {
    open spec fn refusal(raw: RawSearchResultsPayload<'a>) -> Option<ValidationError> {
        first_failure(
            refusal_of_all::<RawCategoryPayload<'a>, CategoryPayload>(raw.categories@),
            first_failure(
                refusal_of_all::<RawThreadPayload<'a>, ThreadPayload>(raw.threads@),
                first_failure(
                    refusal_of_all::<RawCommentPayload<'a>, CommentPayload>(raw.comments@),
                    refusal_of_all::<RawUserPayload<'a>, UserPayload>(raw.users@),
                ),
            ),
        )
    }

    open spec fn made_of(&self, raw: RawSearchResultsPayload<'a>) -> bool {
        &&& all_made_of(self.categories@, raw.categories@)
        &&& all_made_of(self.threads@, raw.threads@)
        &&& all_made_of(self.comments@, raw.comments@)
        &&& all_made_of(self.users@, raw.users@)
    }

    fn from_raw(raw: RawSearchResultsPayload<'a>) -> (made: Result<Self, ValidationError>) {
        Self::try_from(raw)
    }
}

impl SearchResultsPayload {
    /// Converts the four lists in the order of declaration, and each list in
    /// its own order: the first element that is refused gives the reason.
    pub fn try_from<'a>(raw: RawSearchResultsPayload<'a>) -> (made: Result<
        Self,
        ValidationError,
    >)
        ensures
            match made {
                Ok(value) => Self::refusal(raw) is None && value.made_of(raw),
                Err(reason) => Self::refusal(raw) == Some(reason),
            },
    {
        let categories = match convert_all::<RawCategoryPayload<'a>, CategoryPayload>(
            &raw.categories,
        ) {
            Ok(values) => values,
            Err(reason) => {
                return Err(reason);
            },
        };
        let threads = match convert_all::<RawThreadPayload<'a>, ThreadPayload>(&raw.threads) {
            Ok(values) => values,
            Err(reason) => {
                return Err(reason);
            },
        };
        let comments = match convert_all::<RawCommentPayload<'a>, CommentPayload>(&raw.comments) {
            Ok(values) => values,
            Err(reason) => {
                return Err(reason);
            },
        };
        let users = match convert_all::<RawUserPayload<'a>, UserPayload>(&raw.users) {
            Ok(values) => values,
            Err(reason) => {
                return Err(reason);
            },
        };
        Ok(SearchResultsPayload { categories, threads, comments, users })
    }
}

} // verus!

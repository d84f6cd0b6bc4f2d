//! Database IDs (a direct referece to a database item)
//!
//! Every kind of item has an id type of its own, so that the id of a thread
//! cannot stand where the id of a category is asked for, though both are the
//! same kind of number.

use vstd::prelude::*;
use std::hash::Hash;
use super::ValidationError;
use super::decimal::{decimal_text, decimal_u32, lemma_write_then_read, parse_u32, write_u32};

verus! {

/// Any value which is used as an ID should implement this trait
///
/// This trait forces an ID to implement some traits which are relevant for
/// the use of an ID.
pub trait Id: Copy + Eq + Ord + Hash {
    type I: Copy + Eq + Ord + Hash;

    /// The underlying representation of the ID
    spec fn number(&self) -> Self::I;

    /// Get the underlying representation of the ID
    fn inner(&self) -> (n: Self::I)
        ensures
            n == self.number(),
    ;
}

/// A direct referece to a specific category which is stored in the database
#[derive(Clone, Copy, PartialEq, PartialOrd, Eq, Ord, Debug, Hash, Structural)]
pub struct CategoryId(u32);

impl View for CategoryId {
    type V = u32;

    closed spec fn view(&self) -> u32 {
        self.0
    }
}

impl Id for CategoryId {
    type I = u32;

    open spec fn number(&self) -> u32 {
        self@
    }

    fn inner(&self) -> (n: u32) {
        self.0
    }
}

impl CategoryId {
    /// Reads an id from decimal text: an optional `+`, then digits that
    /// stand for a number of 32 bits. Any other text is refused.
    pub fn try_from(s: &str) -> (made: Result<Self, ValidationError>)
        ensures
            match made {
                Ok(id) => decimal_u32(s@) == Some(id@),
                Err(reason) => decimal_u32(s@) is None && reason == ValidationError::InvalidId,
            },
    {
        match parse_u32(s) {
            Some(n) => Ok(CategoryId(n)),
            None => Err(ValidationError::InvalidId),
        }
    }

    /// An id of a number that is already known, such as one that the
    /// database has just given out: nothing is checked, and every number
    /// makes an id.
    pub fn from(n: u32) -> (id: Self)
        ensures
            id@ == n,
    {
        CategoryId(n)
    }

    /// The number of the id.
    pub fn as_ref(&self) -> (n: &u32)
        ensures
            *n == self@,
    {
        &self.0
    }

    /// The number of the id in decimal digits, without a sign and without
    /// leading zeros.
    pub fn to_string(&self) -> (text: String)
        ensures
            text@ == decimal_text(self@ as nat),
    {
        write_u32(self.0)
    }

    /// An id that is written as text and read back is the same id.
    pub proof fn lemma_round_trip(self)
        ensures
            decimal_u32(decimal_text(self@ as nat)) == Some(self@),
    {
        lemma_write_then_read(self@);
    }

    /// Two ids of this kind are the same id exactly when their numbers are
    /// the same.
    pub proof fn lemma_same_number(self, other: Self)
        ensures
            (self == other) <==> (self@ == other@),
    {
    }
}

/// A direct referece to a specific thread which is stored in the database
#[derive(Clone, Copy, PartialEq, PartialOrd, Eq, Ord, Debug, Hash, Structural)]
pub struct ThreadId(u32);

impl View for ThreadId {
    type V = u32;

    closed spec fn view(&self) -> u32 {
        self.0
    }
}

impl Id for ThreadId {
    type I = u32;

    open spec fn number(&self) -> u32 {
        self@
    }

    fn inner(&self) -> (n: u32) {
        self.0
    }
}

impl ThreadId {
    /// Reads an id from decimal text: an optional `+`, then digits that
    /// stand for a number of 32 bits. Any other text is refused.
    pub fn try_from(s: &str) -> (made: Result<Self, ValidationError>)
        ensures
            match made {
                Ok(id) => decimal_u32(s@) == Some(id@),
                Err(reason) => decimal_u32(s@) is None && reason == ValidationError::InvalidId,
            },
    {
        match parse_u32(s) {
            Some(n) => Ok(ThreadId(n)),
            None => Err(ValidationError::InvalidId),
        }
    }

    /// An id of a number that is already known, such as one that the
    /// database has just given out: nothing is checked, and every number
    /// makes an id.
    pub fn from(n: u32) -> (id: Self)
        ensures
            id@ == n,
    {
        ThreadId(n)
    }

    /// The number of the id.
    pub fn as_ref(&self) -> (n: &u32)
        ensures
            *n == self@,
    {
        &self.0
    }

    /// The number of the id in decimal digits, without a sign and without
    /// leading zeros.
    pub fn to_string(&self) -> (text: String)
        ensures
            text@ == decimal_text(self@ as nat),
    {
        write_u32(self.0)
    }

    /// An id that is written as text and read back is the same id.
    pub proof fn lemma_round_trip(self)
        ensures
            decimal_u32(decimal_text(self@ as nat)) == Some(self@),
    {
        lemma_write_then_read(self@);
    }

    /// Two ids of this kind are the same id exactly when their numbers are
    /// the same.
    pub proof fn lemma_same_number(self, other: Self)
        ensures
            (self == other) <==> (self@ == other@),
    {
    }
}

/// A direct referece to a specific comment which is stored in the database
#[derive(Clone, Copy, PartialEq, PartialOrd, Eq, Ord, Debug, Hash, Structural)]
pub struct CommentId(u32);

impl View for CommentId {
    type V = u32;

    closed spec fn view(&self) -> u32 {
        self.0
    }
}

impl Id for CommentId {
    type I = u32;

    open spec fn number(&self) -> u32 {
        self@
    }

    fn inner(&self) -> (n: u32) {
        self.0
    }
}

impl CommentId {
    /// Reads an id from decimal text: an optional `+`, then digits that
    /// stand for a number of 32 bits. Any other text is refused.
    pub fn try_from(s: &str) -> (made: Result<Self, ValidationError>)
        ensures
            match made {
                Ok(id) => decimal_u32(s@) == Some(id@),
                Err(reason) => decimal_u32(s@) is None && reason == ValidationError::InvalidId,
            },
    {
        match parse_u32(s) {
            Some(n) => Ok(CommentId(n)),
            None => Err(ValidationError::InvalidId),
        }
    }

    /// An id of a number that is already known, such as one that the
    /// database has just given out: nothing is checked, and every number
    /// makes an id.
    pub fn from(n: u32) -> (id: Self)
        ensures
            id@ == n,
    {
        CommentId(n)
    }

    /// The number of the id.
    pub fn as_ref(&self) -> (n: &u32)
        ensures
            *n == self@,
    {
        &self.0
    }

    /// The number of the id in decimal digits, without a sign and without
    /// leading zeros.
    pub fn to_string(&self) -> (text: String)
        ensures
            text@ == decimal_text(self@ as nat),
    {
        write_u32(self.0)
    }

    /// An id that is written as text and read back is the same id.
    pub proof fn lemma_round_trip(self)
        ensures
            decimal_u32(decimal_text(self@ as nat)) == Some(self@),
    {
        lemma_write_then_read(self@);
    }

    /// Two ids of this kind are the same id exactly when their numbers are
    /// the same.
    pub proof fn lemma_same_number(self, other: Self)
        ensures
            (self == other) <==> (self@ == other@),
    {
    }
}

/// A direct referece to a specific user which is stored in the database
#[derive(Clone, Copy, PartialEq, PartialOrd, Eq, Ord, Debug, Hash, Structural)]
pub struct UserId(u32);

impl View for UserId {
    type V = u32;

    closed spec fn view(&self) -> u32 {
        self.0
    }
}

impl Id for UserId {
    type I = u32;

    open spec fn number(&self) -> u32 {
        self@
    }

    fn inner(&self) -> (n: u32) {
        self.0
    }
}

impl UserId {
    /// Reads an id from decimal text: an optional `+`, then digits that
    /// stand for a number of 32 bits. Any other text is refused.
    pub fn try_from(s: &str) -> (made: Result<Self, ValidationError>)
        ensures
            match made {
                Ok(id) => decimal_u32(s@) == Some(id@),
                Err(reason) => decimal_u32(s@) is None && reason == ValidationError::InvalidId,
            },
    {
        match parse_u32(s) {
            Some(n) => Ok(UserId(n)),
            None => Err(ValidationError::InvalidId),
        }
    }

    /// An id of a number that is already known, such as one that the
    /// database has just given out: nothing is checked, and every number
    /// makes an id.
    pub fn from(n: u32) -> (id: Self)
        ensures
            id@ == n,
    {
        UserId(n)
    }

    /// The number of the id.
    pub fn as_ref(&self) -> (n: &u32)
        ensures
            *n == self@,
    {
        &self.0
    }

    /// The number of the id in decimal digits, without a sign and without
    /// leading zeros.
    pub fn to_string(&self) -> (text: String)
        ensures
            text@ == decimal_text(self@ as nat),
    {
        write_u32(self.0)
    }

    /// An id that is written as text and read back is the same id.
    pub proof fn lemma_round_trip(self)
        ensures
            decimal_u32(decimal_text(self@ as nat)) == Some(self@),
    {
        lemma_write_then_read(self@);
    }

    /// Two ids of this kind are the same id exactly when their numbers are
    /// the same.
    pub proof fn lemma_same_number(self, other: Self)
        ensures
            (self == other) <==> (self@ == other@),
    {
    }
}

/// Ids of different kinds that hold the same number are written as the same
/// text, though neither can stand where the other is asked for.
pub proof fn lemma_same_number_same_text(
    category: CategoryId,
    thread: ThreadId,
    comment: CommentId,
    user: UserId,
)
    requires
        category@ == thread@,
        thread@ == comment@,
        comment@ == user@,
    ensures
        decimal_text(category@ as nat) == decimal_text(thread@ as nat),
        decimal_text(thread@ as nat) == decimal_text(comment@ as nat),
        decimal_text(comment@ as nat) == decimal_text(user@ as nat),
{
}

} // verus!

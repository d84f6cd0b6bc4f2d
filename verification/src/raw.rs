//! Raw datatypes, as the databases hand them out

use vstd::prelude::*;

verus! {

/// A raw representation of a category
#[derive(Clone, Copy, PartialEq, Debug)]
pub struct RawCategory<'a> {
    pub id: u32,
    pub title: &'a str,
    pub description: &'a str,
}

/// A raw representation of a thread
#[derive(Clone, Copy, PartialEq, Debug)]
pub struct RawThread<'a> {
    pub id: u32,
    pub category_id: u32,
    pub user_id: u32,
    pub title: &'a str,
    pub description: &'a str,
    /// UNIX timestamp
    pub timestamp: i64,
}

/// A raw representation of a comment
#[derive(Clone, Copy, PartialEq, Debug)]
pub struct RawComment<'a> {
    pub id: u32,
    pub thread_id: u32,
    pub user_id: u32,
    pub parent_id: Option<u32>,
    pub content: &'a str,
}

/// A raw representation of a user (content-database)
#[derive(Clone, Copy, PartialEq, Debug)]
pub struct RawContentUser<'a> {
    pub id: u32,
    pub username: &'a str,
    pub description: &'a str,
    pub avatar: &'a str,
}

/// A raw representation of a user (auth-database)
#[derive(Clone, Copy, PartialEq)]
pub struct RawAuthUser<'a> {
    pub id: u32,
    pub email: &'a str,
    pub username: &'a str,
    pub password: &'a str,
}

} // verus!

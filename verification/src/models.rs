//! The rows of the credential store, as plain values.

use vstd::prelude::*;

verus! {

/// A row of the `users` table.
#[derive(Clone, Debug, PartialEq, Eq)]
pub struct User {
    pub id: i32,
    pub email: String,
    pub name: String,
    pub pass: String,
}

/// A row of the `cards` table.
#[derive(Clone, Debug, PartialEq, Eq)]
pub struct Loyalty {
    pub id: i32,
    pub name: String,
    pub color: Option<String>,
    pub code: String,
    pub user_id: i32,
}

/// A user that is about to be stored.
#[derive(Clone, Debug, PartialEq, Eq)]
pub struct NewUser {
    pub email: String,
    pub name: String,
    pub pass: String,
}

/// A card that is about to be stored.
#[derive(Clone, Debug, PartialEq, Eq)]
pub struct NewLoyalty {
    pub name: String,
    pub color: Option<String>,
    pub code: String,
    pub user_id: i32,
}

/// The text of an optional string.
pub open spec fn text_of(value: Option<String>) -> Option<Seq<char>> {
    match value {
        Some(s) => Some(s@),
        None => None,
    }
}

/// Copies an optional string.
pub fn copy_text(value: &Option<String>) -> (r: Option<String>)
    ensures
        text_of(r) == text_of(*value),
{
    match value {
        Some(s) => Some(s.clone()),
        None => None,
    }
}

} // verus!

//! Replies, and what they do to the session cookie.

use crate::error::APIError;
use crate::models::text_of;
use vstd::prelude::*;

verus! {

/// What a reply does to the session cookie.
#[derive(Clone, Debug, PartialEq, Eq)]
pub enum CookieAction {
    /// The cookie is left as it is.
    Keep,
    /// The cookie is set to this token.
    Assign(String),
    /// The cookie is removed; removing one that is not there changes nothing.
    Remove,
}

/// A reply with a status, a fixed body and its effect on the session cookie.
#[derive(Clone, Debug, PartialEq, Eq)]
pub struct Reply {
    pub status: u16,
    pub body: &'static str,
    pub cookie: CookieAction,
}

/// The session cookie that a client holds after a reply that takes `action`,
/// having held `before`.
pub open spec fn cookie_after(before: Option<Seq<char>>, action: CookieAction) -> Option<
    Seq<char>,
> {
    match action {
        CookieAction::Keep => before,
        CookieAction::Assign(token) => Some(token@),
        CookieAction::Remove => None,
    }
}

impl CookieAction {
    /// Carries this action out on the cookie that a client holds.
    pub fn apply(&self, held: Option<String>) -> (r: Option<String>)
        ensures
            text_of(r) == cookie_after(text_of(held), *self),
    {
        match self {
            CookieAction::Keep => held,
            CookieAction::Assign(token) => Some(token.clone()),
            CookieAction::Remove => None,
        }
    }
}

impl Reply {
    /// Whether this reply has the given status, body and effect on the cookie.
    pub open spec fn is(self, status: u16, body: Seq<char>, cookie: CookieAction) -> bool {
        self.status == status && self.body@ == body && self.cookie == cookie
    }
}

impl APIError {
    /// The reply that ends a request on this failure: its status, its fixed
    /// message as the body, and the cookie left alone.
    pub fn respond_to(&self) -> (r: Reply)
        ensures
            r.is(self.status_code(), self.message_text(), CookieAction::Keep),
    {
        Reply { status: self.status(), body: self.message(), cookie: CookieAction::Keep }
    }
}

} // verus!

//! Request and response bodies, and the validation of a signup.

use crate::decimal::{decimal_text, format_i32};
use crate::error::APIError;
use crate::models::{copy_text, text_of, Loyalty, NewLoyalty, NewUser};
use crate::session::User;
use vstd::prelude::*;

verus! {

/// The body of a signup.
#[derive(Clone, Debug, PartialEq, Eq)]
pub struct UserSignup {
    pub email: String,
    pub name: String,
    pub pass: String,
}

/// The body of a sign-in.
#[derive(Clone, Debug, PartialEq, Eq)]
pub struct UserSignIn {
    pub email: String,
    pub pass: String,
}

/// The body that creates a card.
#[derive(Clone, Debug, PartialEq, Eq)]
pub struct AddLoyalty {
    pub name: String,
    pub color: Option<String>,
    pub code: String,
}

/// A card as it is shown to its owner.
#[derive(Clone, Debug, PartialEq, Eq)]
pub struct AddLoyaltyResponse {
    pub id: String,
    pub name: String,
    pub color: Option<String>,
    pub code: String,
}

/// Whether `validator::validate_email` accepts `email`.
pub uninterp spec fn email_well_formed(email: Seq<char>) -> bool;

/// Judges an address with `validator::validate_email`.
///
/// Claimed: the verdict depends on the text alone, and the empty text is
/// refused, which is the first test in that function.
#[verifier::external_body]
fn validate_email(email: &str) -> (r: bool)
    ensures
        r == email_well_formed(email@),
        email@.len() == 0 ==> !r,
{
    validator::validate_email(email)
}

impl UserSignup {
    /// A signup is acceptable when none of its fields is empty and `email_ok`,
    /// the verdict on its address, is favourable.
    pub open spec fn acceptable(self, email_ok: bool) -> bool {
        self.email@.len() > 0 && self.name@.len() > 0 && self.pass@.len() > 0 && email_ok
    }

    /// A signup is valid when none of its fields is empty and its address is
    /// well formed.
    pub open spec fn valid(self) -> bool {
        self.acceptable(email_well_formed(self.email@))
    }

    /// Decides on a signup, given the verdict on its address.
    pub fn decide(&self, email_ok: bool) -> (r: Result<(), APIError>)
        ensures
            r == if self.acceptable(email_ok) {
                Ok::<(), APIError>(())
            } else {
                Err(APIError::ValidationFailure)
            },
    {
        if self.email.as_str().is_empty() || self.name.as_str().is_empty()
            || self.pass.as_str().is_empty() || !email_ok {
            Err(APIError::ValidationFailure)
        } else {
            Ok(())
        }
    }

    /// Validates a signup: succeeds when it is valid, and fails with
    /// `ValidationFailure` otherwise. An empty address is never valid.
    pub fn validate(&self) -> (r: Result<(), APIError>)
        ensures
            r == if self.valid() {
                Ok::<(), APIError>(())
            } else {
                Err(APIError::ValidationFailure)
            },
            self.email@.len() == 0 ==> r is Err,
    {
        let email_ok = validate_email(self.email.as_str());
        self.decide(email_ok)
    }

    /// The row that stores this signup.
    pub fn new_user(&self) -> (r: NewUser)
        ensures
            r.email@ == self.email@,
            r.name@ == self.name@,
            r.pass@ == self.pass@,
    {
        NewUser { email: self.email.clone(), name: self.name.clone(), pass: self.pass.clone() }
    }
}

impl AddLoyalty {
    /// The row that stores this card for `owner`.
    pub fn new_loyalty(&self, owner: User) -> (r: NewLoyalty)
        ensures
            r.user_id == owner.0,
            r.name@ == self.name@,
            text_of(r.color) == text_of(self.color),
            r.code@ == self.code@,
    {
        NewLoyalty {
            name: self.name.clone(),
            color: copy_text(&self.color),
            code: self.code.clone(),
            user_id: owner.0,
        }
    }
}

impl AddLoyaltyResponse {
    /// Whether this response shows `card`: its id in decimal, and its name,
    /// color and code as they are stored.
    pub open spec fn shows(self, card: Loyalty) -> bool {
        &&& self.id@ == decimal_text(card.id as int)
        &&& self.name@ == card.name@
        &&& text_of(self.color) == text_of(card.color)
        &&& self.code@ == card.code@
    }

    /// The response that shows `card`.
    pub fn from_loyalty(card: &Loyalty) -> (r: AddLoyaltyResponse)
        ensures
            r.shows(*card),
    {
        AddLoyaltyResponse {
            id: format_i32(card.id),
            name: card.name.clone(),
            color: copy_text(&card.color),
            code: card.code.clone(),
        }
    }
}

} // verus!

//! The decisions of the seven operations.
//!
//! Each operation is split at the store: what is decided before the store is
//! asked, and what is answered once the store has spoken. The caller talks to
//! the store and to the cookie jar; nothing here does.

use crate::decimal::{bounded_value, decimal_text, parse_i32, parse_i64};
use crate::error::{APIError, StoreFailure, STATUS_BAD_REQUEST, STATUS_FORBIDDEN, STATUS_OK};
use crate::models;
use crate::models::{text_of, Loyalty, NewLoyalty, NewUser};
use crate::reply::{cookie_after, CookieAction, Reply};
use crate::requests::{AddLoyalty, AddLoyaltyResponse, UserSignup};
use crate::session::{
    authenticated, decoded, encode, unsealed, SessionKey, User, VerificationError, SESSION_COOKIE,
};
use vstd::prelude::*;

verus! {

/// The number of cards on a page when the request names none.
pub const DEFAULT_LIMIT: i64 = 10;

/// The number of cards skipped when the request names none.
pub const DEFAULT_OFFSET: i64 = 0;

/// The window of a listing.
#[derive(Clone, Copy, Debug, PartialEq, Eq, Structural)]
pub struct Page {
    pub limit: i64,
    pub offset: i64,
}

/// What list-cards asks of the store: the cards of one owner, within a window.
#[derive(Clone, Copy, Debug, PartialEq, Eq, Structural)]
pub struct CardsQuery {
    pub owner: i32,
    pub page: Page,
}

/// The value of a query parameter that must be a 64-bit integer: what it
/// reads as, or `default` where it is missing or does not read as one.
pub open spec fn integer_or(text: Option<Seq<char>>, default: i64) -> i64 {
    match text {
        Some(t) => match bounded_value(t, i64::MIN as int, i64::MAX as int) {
            Some(v) => v as i64,
            None => default,
        },
        None => default,
    }
}

/// The text of an optional string slice.
pub open spec fn slice_text(value: Option<&str>) -> Option<Seq<char>> {
    match value {
        Some(s) => Some(s@),
        None => None,
    }
}

/// Reads a query parameter as a 64-bit integer, falling back on `default`.
fn parameter_or(text: Option<&str>, default: i64) -> (r: i64)
    ensures
        r == integer_or(slice_text(text), default),
{
    match text {
        Some(t) => match parse_i64(t) {
            Some(v) => v,
            None => default,
        },
        None => default,
    }
}

/// Signup, before the store: validates the body and, if it is valid, gives the
/// row to insert. An invalid body never reaches the store.
pub fn signup(body: &UserSignup) -> (r: Result<NewUser, APIError>)
    ensures
        r is Ok <==> body.valid(),
        r matches Ok(row) ==> row.email@ == body.email@ && row.name@ == body.name@ && row.pass@
            == body.pass@,
        r matches Err(e) ==> e == APIError::ValidationFailure,
{
    match body.validate() {
        Ok(()) => Ok(body.new_user()),
        Err(e) => Err(e),
    }
}

/// Signup, after the store: an empty success, or the class of the store's
/// failure. A duplicate address is a bad request, not a server error.
pub fn signup_reply(inserted: Result<usize, StoreFailure>) -> (r: Result<(), APIError>)
    ensures
        r == match inserted {
            Ok(_) => Ok::<(), APIError>(()),
            Err(f) => Err(f.class()),
        },
{
    match inserted {
        Ok(_) => Ok(()),
        Err(f) => Err(f.classify()),
    }
}

/// Sign-in, after the store was asked for the users with the given address
/// and password.
///
/// With no such user the reply is 403 "invalid credentials" and the cookie is
/// left alone; that is a reply, not a failure. With one, the reply is 200
/// "connected" and sets the cookie to a token that seals the first user's id
/// in its canonical decimal text. A failure of the store is classified.
pub fn signin(key: &SessionKey, fetched: Result<Vec<models::User>, StoreFailure>) -> (r: Result<
    Reply,
    APIError,
>)
    ensures
        match fetched {
            Err(f) => r == Err::<Reply, APIError>(f.class()),
            Ok(rows) => r matches Ok(reply) && if rows@.len() == 0 {
                reply.is(STATUS_FORBIDDEN, "invalid credentials"@, CookieAction::Keep)
            } else {
                &&& reply.status == STATUS_OK
                &&& reply.body@ == "connected"@
                &&& reply.cookie matches CookieAction::Assign(token) && unsealed(
                    key@,
                    SESSION_COOKIE@,
                    token@,
                ) == Some(decimal_text(rows@[0].id as int)) && decoded(key@, token@) == Ok::<
                    User,
                    VerificationError,
                >(User(rows@[0].id))
            },
        },
{
    match fetched {
        Err(f) => Err(f.classify()),
        Ok(rows) => {
            if rows.len() == 0 {
                Ok(
                    Reply {
                        status: STATUS_FORBIDDEN,
                        body: "invalid credentials",
                        cookie: CookieAction::Keep,
                    },
                )
            } else {
                let token = encode(key, rows[0].id);
                Ok(Reply { status: STATUS_OK, body: "connected", cookie: CookieAction::Assign(token) })
            }
        },
    }
}

/// Sign-out: always 200 "logged out", and the cookie is removed whether or not
/// there was one.
pub fn sign_out() -> (r: Reply)
    ensures
        r.is(STATUS_OK, "logged out"@, CookieAction::Remove),
{
    Reply { status: STATUS_OK, body: "logged out", cookie: CookieAction::Remove }
}

/// Get-self, after the store was asked for the user with the principal's id:
/// the first row, or nothing where the store failed or has no such row. The
/// two are not told apart.
pub fn get_user(fetched: Result<Vec<models::User>, StoreFailure>) -> (r: Option<models::User>)
    ensures
        r == match fetched {
            Ok(rows) => if rows@.len() == 0 {
                None
            } else {
                Some(rows@[0])
            },
            Err(_) => None,
        },
{
    match fetched {
        Err(_) => None,
        Ok(rows) => {
            let mut elements = rows;
            if elements.len() == 0 {
                None
            } else {
                Some(elements.remove(0))
            }
        },
    }
}

/// Create-card, before the store: the row to insert, owned by the principal.
pub fn add_loyalty(user: User, body: &AddLoyalty) -> (r: NewLoyalty)
    ensures
        r.user_id == user.0,
        r.name@ == body.name@,
        text_of(r.color) == text_of(body.color),
        r.code@ == body.code@,
{
    body.new_loyalty(user)
}

/// Create-card, after the store: `read_back` is the card with the greatest id,
/// read after the insert, or `None` where the insert or the read failed.
///
/// The reply shows the card that was read back, or is empty where there is
/// none. A read that succeeds after an insert returns a row.
pub fn add_loyalty_reply(read_back: Option<Vec<Loyalty>>) -> (r: Option<AddLoyaltyResponse>)
    requires
        read_back matches Some(rows) ==> rows@.len() > 0,
    ensures
        match read_back {
            Some(rows) => r matches Some(shown) && shown.shows(rows@[0]),
            None => r is None,
        },
{
    match read_back {
        None => None,
        Some(rows) => Some(AddLoyaltyResponse::from_loyalty(&rows[0])),
    }
}

/// List-cards, before the store: the window to ask for. Each parameter is read
/// as an integer; a missing one, or one that is not an integer, silently gives
/// the default.
pub fn get_loyalties(limit: Option<&str>, offset: Option<&str>) -> (r: Page)
    ensures
        r.limit == integer_or(slice_text(limit), DEFAULT_LIMIT),
        r.offset == integer_or(slice_text(offset), DEFAULT_OFFSET),
{
    Page { limit: parameter_or(limit, DEFAULT_LIMIT), offset: parameter_or(offset, DEFAULT_OFFSET) }
}

/// List-cards, after the store: every card that the store returned, in the
/// store's order, or nothing where the store failed.
pub fn get_loyalties_reply(fetched: Option<Vec<Loyalty>>) -> (r: Option<Vec<AddLoyaltyResponse>>)
    ensures
        match fetched {
            Some(rows) => r matches Some(shown) && shown@.len() == rows@.len() && forall|i: int|
                0 <= i < rows@.len() ==> (#[trigger] shown@[i]).shows(rows@[i]),
            None => r is None,
        },
{
    match fetched {
        None => None,
        Some(rows) => {
            let mut shown: Vec<AddLoyaltyResponse> = Vec::new();
            let mut i: usize = 0;
            while i < rows.len()
                invariant
                    i <= rows@.len(),
                    shown@.len() == i,
                    forall|k: int| 0 <= k < i ==> (#[trigger] shown@[k]).shows(rows@[k]),
                decreases rows@.len() - i,
            {
                shown.push(AddLoyaltyResponse::from_loyalty(&rows[i]));
                i = i + 1;
            }
            Some(shown)
        },
    }
}

/// Delete-card, before the store: the id in the path, which must read as a
/// 32-bit integer. One that does not is a bad request.
pub fn delete_loyalty(loyalty_id: &str) -> (r: Result<i32, APIError>)
    ensures
        r == match bounded_value(loyalty_id@, i32::MIN as int, i32::MAX as int) {
            Some(id) => Ok::<i32, APIError>(id as i32),
            None => Err(APIError::ParameterParseFailure),
        },
        r matches Err(e) ==> e.status_code() == STATUS_BAD_REQUEST,
{
    match parse_i32(loyalty_id) {
        Some(id) => Ok(id),
        None => Err(APIError::ParameterParseFailure),
    }
}

/// Delete-card, after the store: 200 "loyalty deleted" however many rows went,
/// none included; a failure of the store is classified.
pub fn delete_loyalty_reply(deleted: Result<usize, StoreFailure>) -> (r: Result<Reply, APIError>)
    ensures
        match deleted {
            Ok(_) => r matches Ok(reply) && reply.is(
                STATUS_OK,
                "loyalty deleted"@,
                CookieAction::Keep,
            ),
            Err(f) => r == Err::<Reply, APIError>(f.class()),
        },
{
    match deleted {
        Ok(_) => Ok(Reply { status: STATUS_OK, body: "loyalty deleted", cookie: CookieAction::Keep }),
        Err(f) => Err(f.classify()),
    }
}

/// Get-self, from the request: the id to ask the store for. A request
/// without a valid session is rejected here, before anything is asked of the
/// store.
pub fn get_user_request(key: &SessionKey, cookie: Option<&str>) -> (r: Result<i32, APIError>)
    ensures
        r == match authenticated(key@, slice_text(cookie)) {
            Ok(user) => Ok::<i32, APIError>(user.0),
            Err(_) => Err(APIError::Unauthenticated),
        },
{
    match User::from_request(key, cookie) {
        Ok(user) => Ok(user.id()),
        Err(e) => Err(e),
    }
}

/// Create-card, from the request: the row to insert, owned by the user that
/// the session names. A request without a valid session is rejected here, and
/// no row is made for any owner.
pub fn add_loyalty_request(key: &SessionKey, cookie: Option<&str>, body: &AddLoyalty) -> (r: Result<
    NewLoyalty,
    APIError,
>)
    ensures
        match authenticated(key@, slice_text(cookie)) {
            Ok(user) => r matches Ok(row) && row.user_id == user.0 && row.name@ == body.name@
                && text_of(row.color) == text_of(body.color) && row.code@ == body.code@,
            Err(_) => r == Err::<NewLoyalty, APIError>(APIError::Unauthenticated),
        },
{
    match User::from_request(key, cookie) {
        Ok(user) => Ok(add_loyalty(user, body)),
        Err(e) => Err(e),
    }
}

/// List-cards, from the request: the owner and the window to ask the store
/// for. A request without a valid session is rejected here, whatever its
/// parameters, and no card of any user is asked for.
pub fn get_loyalties_request(
    key: &SessionKey,
    cookie: Option<&str>,
    limit: Option<&str>,
    offset: Option<&str>,
) -> (r: Result<CardsQuery, APIError>)
    ensures
        r == match authenticated(key@, slice_text(cookie)) {
            Ok(user) => Ok::<CardsQuery, APIError>(
                (CardsQuery {
                    owner: user.0,
                    page: (Page {
                        limit: integer_or(slice_text(limit), DEFAULT_LIMIT),
                        offset: integer_or(slice_text(offset), DEFAULT_OFFSET),
                    }),
                }),
            ),
            Err(_) => Err(APIError::Unauthenticated),
        },
{
    match User::from_request(key, cookie) {
        Ok(user) => Ok(CardsQuery { owner: user.id(), page: get_loyalties(limit, offset) }),
        Err(e) => Err(e),
    }
}

/// A token that decodes to a user, once set as the cookie, authenticates the
/// next request as that user, whatever the client held before; a reply that
/// leaves the cookie alone leaves the client as it was.
pub proof fn lemma_sign_in_starts_session(
    key: Seq<u8>,
    before: Option<Seq<char>>,
    token: String,
    user: User,
)
    requires
        decoded(key, token@) == Ok::<User, VerificationError>(user),
    ensures
        authenticated(key, cookie_after(before, CookieAction::Assign(token))) == Ok::<
            User,
            APIError,
        >(user),
        cookie_after(before, CookieAction::Keep) == before,
{
}

/// After a sign-out the client holds no session cookie, whatever it held
/// before, and its next request to a protected route is rejected.
pub proof fn lemma_sign_out_ends_session(key: Seq<u8>, before: Option<Seq<char>>)
    ensures
        cookie_after(before, CookieAction::Remove) is None,
        authenticated(key, cookie_after(before, CookieAction::Remove)) == Err::<User, APIError>(
            APIError::Unauthenticated,
        ),
{
}

/// A parameter that does not read as an integer gives the same value as a
/// missing one: the default.
pub proof fn lemma_unreadable_parameter_is_default(text: Seq<char>, default: i64)
    requires
        bounded_value(text, i64::MIN as int, i64::MAX as int) is None,
    ensures
        integer_or(Some(text), default) == integer_or(None, default),
        integer_or(None, default) == default,
{
}

} // verus!

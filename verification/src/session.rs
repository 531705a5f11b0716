//! The session codec and the authenticator.
//!
//! A session is one cookie, named `user_id`, whose value is the user's id in
//! decimal, sealed under the service's key. The key is handed in by the caller;
//! nothing here is global.

use crate::decimal::{bounded_value, decimal_text, format_i32, lemma_decimal_round_trip, parse_i32};
use crate::error::{APIError, STATUS_FORBIDDEN};
use vstd::prelude::*;

verus! {

/// The least number of bytes of key material.
pub const KEY_LENGTH: usize = 64;

/// The name of the session cookie.
pub const SESSION_COOKIE: &'static str = "user_id";

/// The key under which session cookies are sealed: at least [`KEY_LENGTH`]
/// bytes.
pub struct SessionKey {
    bytes: Vec<u8>,
}

/// The identity that a verified session cookie gives to one request.
#[derive(Clone, Copy, Debug, PartialEq, Eq, Structural)]
pub struct User(pub i32);

/// Why a token is not a session.
#[derive(Clone, Copy, Debug, PartialEq, Eq, Structural)]
pub enum VerificationError {
    /// The token was not sealed under this key for this cookie, or was altered
    /// since.
    BadSeal,
    /// The seal holds, but what it protects is not a 32-bit decimal integer.
    BadPayload,
}

impl View for SessionKey {
    type V = Seq<u8>;

    closed spec fn view(&self) -> Seq<u8> {
        self.bytes@
    }
}

impl SessionKey {
    #[verifier::type_invariant]
    spec fn well_formed(self) -> bool {
        self.bytes@.len() >= KEY_LENGTH
    }

    /// Makes a key of `bytes`, provided there are enough of them.
    pub fn new(bytes: Vec<u8>) -> (r: Option<SessionKey>)
        ensures
            r is Some <==> bytes@.len() >= KEY_LENGTH,
            r matches Some(key) ==> key@ == bytes@,
    {
        if bytes.len() >= KEY_LENGTH {
            Some(SessionKey { bytes })
        } else {
            None
        }
    }

    /// The number of bytes of key material: never under [`KEY_LENGTH`].
    pub fn len(&self) -> (r: usize)
        ensures
            r == self@.len(),
            r >= KEY_LENGTH,
    {
        proof {
            use_type_invariant(self);
        }
        self.bytes.len()
    }
}

/// What `cookie::PrivateJar::decrypt` recovers from the value `sealed` of a
/// cookie called `name` under the key made of `key`, if it recovers anything.
pub uninterp spec fn unsealed(key: Seq<u8>, name: Seq<char>, sealed: Seq<char>) -> Option<Seq<char>>;

/// Seals `value` as the value of a cookie called `name`, through
/// `cookie::PrivateJar::add`.
///
/// Claimed: a private jar with the same key recovers `value` from the result,
/// as the documentation of `PrivateJar::decrypt` promises. The result itself
/// holds a fresh random nonce, so nothing else is said of it.
#[verifier::external_body]
fn seal(key: &[u8], name: &str, value: &str) -> (sealed: String)
    requires
        key@.len() >= KEY_LENGTH,
    ensures
        unsealed(key@, name@, sealed@) == Some(value@),
{
    let mut jar = cookie::CookieJar::new();
    let plain = cookie::Cookie::new(name.to_owned(), value.to_owned());
    jar.private_mut(&cookie::Key::from(key)).add(plain);
    jar.get(name).map(|c| c.value().to_owned()).unwrap_or_default()
}

/// Opens the value `sealed` of a cookie called `name`, through
/// `cookie::PrivateJar::decrypt`.
///
/// Claimed: the outcome depends on the key, the name and the sealed value
/// alone.
#[verifier::external_body]
fn unseal(key: &[u8], name: &str, sealed: &str) -> (r: Option<String>)
    requires
        key@.len() >= KEY_LENGTH,
    ensures
        r is Some <==> unsealed(key@, name@, sealed@) is Some,
        r matches Some(value) ==> unsealed(key@, name@, sealed@) == Some(value@),
{
    let jar = cookie::CookieJar::new();
    let given = cookie::Cookie::new(name.to_owned(), sealed.to_owned());
    jar.private(&cookie::Key::from(key)).decrypt(given).map(|c| c.value().to_owned())
}

/// What a sealed payload says once the seal has been opened: a user, if the
/// payload is a 32-bit decimal integer.
pub open spec fn payload_user(opened: Option<Seq<char>>) -> Result<User, VerificationError> {
    match opened {
        None => Err(VerificationError::BadSeal),
        Some(text) => match bounded_value(text, i32::MIN as int, i32::MAX as int) {
            Some(id) => Ok(User(id as i32)),
            None => Err(VerificationError::BadPayload),
        },
    }
}

/// What `token` says under `key`.
pub open spec fn decoded(key: Seq<u8>, token: Seq<char>) -> Result<User, VerificationError> {
    payload_user(unsealed(key, SESSION_COOKIE@, token))
}

/// The outcome of authenticating a request that carries `cookie` as the value
/// of its session cookie, or no session cookie at all.
pub open spec fn authenticated(key: Seq<u8>, cookie: Option<Seq<char>>) -> Result<User, APIError> {
    match cookie {
        None => Err(APIError::Unauthenticated),
        Some(token) => match decoded(key, token) {
            Ok(user) => Ok(user),
            Err(_) => Err(APIError::Unauthenticated),
        },
    }
}

/// Reads the payload of an opened seal.
pub fn read_payload(opened: Option<String>) -> (r: Result<User, VerificationError>)
    ensures
        r == payload_user(
            match opened {
                Some(text) => Some(text@),
                None => None,
            },
        ),
{
    match opened {
        None => Err(VerificationError::BadSeal),
        Some(text) => match parse_i32(text.as_str()) {
            Some(id) => Ok(User(id)),
            None => Err(VerificationError::BadPayload),
        },
    }
}

/// Makes the session token of `user_id` under `key`: the id in decimal,
/// sealed. Whatever the token looks like, it decodes to that user.
pub fn encode(key: &SessionKey, user_id: i32) -> (token: String)
    ensures
        unsealed(key@, SESSION_COOKIE@, token@) == Some(decimal_text(user_id as int)),
        decoded(key@, token@) == Ok::<User, VerificationError>(User(user_id)),
{
    proof {
        use_type_invariant(key);
        lemma_decimal_round_trip(user_id as int);
    }
    let text = format_i32(user_id);
    seal(key.bytes.as_slice(), SESSION_COOKIE, text.as_str())
}

/// Verifies `token` under `key` and reads the user it names.
pub fn decode(key: &SessionKey, token: &str) -> (r: Result<User, VerificationError>)
    ensures
        r == decoded(key@, token@),
{
    proof {
        use_type_invariant(key);
    }
    read_payload(unseal(key.bytes.as_slice(), SESSION_COOKIE, token))
}

impl User {
    /// The user's id.
    pub fn id(&self) -> (r: i32)
        ensures
            r == self.0,
    {
        self.0
    }

    /// Authenticates a request from the value of its session cookie, `None`
    /// where the request carries no such cookie.
    ///
    /// A request without the cookie is rejected; so is one whose cookie does
    /// not verify or does not hold an id. There is no second attempt.
    pub fn from_request(key: &SessionKey, cookie: Option<&str>) -> (r: Result<User, APIError>)
        ensures
            r == authenticated(
                key@,
                match cookie {
                    Some(token) => Some(token@),
                    None => None,
                },
            ),
    {
        match cookie {
            None => Err(APIError::Unauthenticated),
            Some(token) => match decode(key, token) {
                Ok(user) => Ok(user),
                Err(_) => Err(APIError::Unauthenticated),
            },
        }
    }
}

/// A request is let through only as the user that its cookie decodes to; every
/// other request, one without a cookie among them, is answered with 403.
pub proof fn lemma_authentication_gate(key: Seq<u8>, cookie: Option<Seq<char>>)
    ensures
        cookie is None ==> authenticated(key, cookie) == Err::<User, APIError>(
            APIError::Unauthenticated,
        ),
        authenticated(key, cookie) matches Ok(user) ==> cookie matches Some(token) && decoded(
            key,
            token,
        ) == Ok::<User, VerificationError>(user),
        authenticated(key, cookie) matches Err(e) ==> e == APIError::Unauthenticated
            && e.status_code() == STATUS_FORBIDDEN,
{
}

} // verus!

//! The failure taxonomy and its mapping to HTTP statuses.
//!
//! Every failure is classified by its kind, never by the text of a message.

use vstd::prelude::*;

verus! {

/// HTTP 200.
pub const STATUS_OK: u16 = 200;

/// HTTP 400.
pub const STATUS_BAD_REQUEST: u16 = 400;

/// HTTP 403.
pub const STATUS_FORBIDDEN: u16 = 403;

/// HTTP 500.
pub const STATUS_INTERNAL_SERVER_ERROR: u16 = 500;

/// A failure that ends a request.
#[derive(Clone, Copy, Debug, PartialEq, Eq, Structural)]
pub enum APIError {
    /// A request body did not pass validation.
    ValidationFailure,
    /// The store refused a write because a unique key already exists.
    PersistenceUniqueViolation,
    /// The store failed in any other way.
    PersistenceOtherError,
    /// The session cookie is missing or does not verify.
    Unauthenticated,
    /// A path or query parameter that must be an integer is not one.
    ParameterParseFailure,
}

/// What the store reported when an operation on it failed.
#[derive(Clone, Copy, Debug, PartialEq, Eq, Structural)]
pub enum StoreFailure {
    /// A unique constraint was violated.
    UniqueViolation,
    /// A foreign key constraint was violated.
    ForeignKeyViolation,
    /// A not-null constraint was violated.
    NotNullViolation,
    /// A check constraint was violated.
    CheckViolation,
    /// The database reported a failure of another kind.
    OtherDatabase,
    /// A row was expected and none was found.
    NotFound,
    /// Any failure outside the database itself.
    Other,
}

/// `diesel::result::Error`, carried through as an opaque value.
#[verifier::external_type_specification]
#[verifier::external_body]
pub struct ExDieselError(diesel::result::Error);

/// The kind of failure that a `diesel::result::Error` holds: which variant it
/// is and, for a database error, which `diesel::result::DatabaseErrorKind`.
pub uninterp spec fn store_failure_of(e: diesel::result::Error) -> StoreFailure;

/// Reads the kind of a `diesel::result::Error`.
///
/// The body tells the variants of `diesel::result::Error` and of
/// `diesel::result::DatabaseErrorKind` apart. Claimed: the kind depends on the
/// error alone.
#[verifier::external_body]
fn store_failure_kind(e: &diesel::result::Error) -> (r: StoreFailure)
    ensures
        r == store_failure_of(*e),
{
    match e {
        diesel::result::Error::DatabaseError(kind, _) => match kind {
            diesel::result::DatabaseErrorKind::UniqueViolation => StoreFailure::UniqueViolation,
            diesel::result::DatabaseErrorKind::ForeignKeyViolation => StoreFailure::ForeignKeyViolation,
            diesel::result::DatabaseErrorKind::NotNullViolation => StoreFailure::NotNullViolation,
            diesel::result::DatabaseErrorKind::CheckViolation => StoreFailure::CheckViolation,
            _ => StoreFailure::OtherDatabase,
        },
        diesel::result::Error::NotFound => StoreFailure::NotFound,
        _ => StoreFailure::Other,
    }
}

impl StoreFailure {
    /// The class of this store failure: a unique-key violation is the caller's
    /// fault, everything else is the server's.
    pub open spec fn class(self) -> APIError {
        if self == StoreFailure::UniqueViolation {
            APIError::PersistenceUniqueViolation
        } else {
            APIError::PersistenceOtherError
        }
    }

    /// Classifies this store failure.
    pub fn classify(self) -> (r: APIError)
        ensures
            r == self.class(),
    {
        match self {
            StoreFailure::UniqueViolation => APIError::PersistenceUniqueViolation,
            StoreFailure::ForeignKeyViolation => APIError::PersistenceOtherError,
            StoreFailure::NotNullViolation => APIError::PersistenceOtherError,
            StoreFailure::CheckViolation => APIError::PersistenceOtherError,
            StoreFailure::OtherDatabase => APIError::PersistenceOtherError,
            StoreFailure::NotFound => APIError::PersistenceOtherError,
            StoreFailure::Other => APIError::PersistenceOtherError,
        }
    }
}

impl APIError {
    /// The HTTP status of each class of failure.
    pub open spec fn status_code(self) -> u16 {
        match self {
            APIError::ValidationFailure => STATUS_BAD_REQUEST,
            APIError::PersistenceUniqueViolation => STATUS_BAD_REQUEST,
            APIError::PersistenceOtherError => STATUS_INTERNAL_SERVER_ERROR,
            APIError::Unauthenticated => STATUS_FORBIDDEN,
            APIError::ParameterParseFailure => STATUS_BAD_REQUEST,
        }
    }

    /// The fixed message of each class of failure.
    pub open spec fn message_text(self) -> Seq<char> {
        match self {
            APIError::ValidationFailure => "error during sign in"@,
            APIError::PersistenceUniqueViolation => "query error"@,
            APIError::PersistenceOtherError => "query error"@,
            APIError::Unauthenticated => "not authorised"@,
            APIError::ParameterParseFailure => "parsing error"@,
        }
    }

    /// The HTTP status that answers a request ended by this failure.
    pub fn status(&self) -> (r: u16)
        ensures
            r == self.status_code(),
    {
        match self {
            APIError::ValidationFailure => STATUS_BAD_REQUEST,
            APIError::PersistenceUniqueViolation => STATUS_BAD_REQUEST,
            APIError::PersistenceOtherError => STATUS_INTERNAL_SERVER_ERROR,
            APIError::Unauthenticated => STATUS_FORBIDDEN,
            APIError::ParameterParseFailure => STATUS_BAD_REQUEST,
        }
    }

    /// The message of this failure: one fixed string per class, with no detail
    /// of the failure itself.
    pub fn message(&self) -> (r: &'static str)
        ensures
            r@ == self.message_text(),
    {
        match self {
            APIError::ValidationFailure => "error during sign in",
            APIError::PersistenceUniqueViolation => "query error",
            APIError::PersistenceOtherError => "query error",
            APIError::Unauthenticated => "not authorised",
            APIError::ParameterParseFailure => "parsing error",
        }
    }

    /// The class of a failure of the store, from the kind that the store's own
    /// error carries.
    ///
    /// The result is the class of the kind that the error holds: a bad request
    /// for a unique-key violation, a server error for every other kind.
    pub fn from_store_error(e: &diesel::result::Error) -> (r: APIError)
        ensures
            r == store_failure_of(*e).class(),
            r == APIError::PersistenceUniqueViolation || r == APIError::PersistenceOtherError,
            r.status_code() == STATUS_BAD_REQUEST || r.status_code()
                == STATUS_INTERNAL_SERVER_ERROR,
    {
        store_failure_kind(e).classify()
    }
}

/// Passes a result of the store on, with the kind of its failure read from the
/// store's own error. A success stays what it is, and a failure becomes the
/// kind that the error holds.
pub fn store_outcome<T>(outcome: Result<T, diesel::result::Error>) -> (r: Result<T, StoreFailure>)
    ensures
        match outcome {
            Ok(v) => r == Ok::<T, StoreFailure>(v),
            Err(e) => r == Err::<T, StoreFailure>(store_failure_of(e)),
        },
{
    match outcome {
        Ok(v) => Ok(v),
        Err(e) => Err(store_failure_kind(&e)),
    }
}

/// Every failure is answered with 400, 403 or 500, and never with a success.
pub proof fn lemma_status_is_failure(e: APIError)
    ensures
        e.status_code() == STATUS_BAD_REQUEST || e.status_code() == STATUS_FORBIDDEN
            || e.status_code() == STATUS_INTERNAL_SERVER_ERROR,
        e.status_code() != STATUS_OK,
{
}

/// A duplicate key is the only failure of the store that is answered with 400;
/// every other one is answered with 500.
pub proof fn lemma_store_failure_status(f: StoreFailure)
    ensures
        f == StoreFailure::UniqueViolation ==> f.class().status_code() == STATUS_BAD_REQUEST,
        f != StoreFailure::UniqueViolation ==> f.class().status_code()
            == STATUS_INTERNAL_SERVER_ERROR,
{
}

} // verus!

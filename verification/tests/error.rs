use diesel::result::{DatabaseErrorKind, Error};
use loyalty_api::error::{store_outcome, APIError, StoreFailure};

fn database_error(kind: DatabaseErrorKind) -> Error {
    Error::DatabaseError(kind, Box::new(String::from("UNIQUE constraint failed: users.email")))
}

#[test]
fn each_class_has_its_status() {
    assert_eq!(APIError::ValidationFailure.status(), 400);
    assert_eq!(APIError::PersistenceUniqueViolation.status(), 400);
    assert_eq!(APIError::PersistenceOtherError.status(), 500);
    assert_eq!(APIError::Unauthenticated.status(), 403);
    assert_eq!(APIError::ParameterParseFailure.status(), 400);
}

#[test]
fn each_class_has_its_fixed_message() {
    assert_eq!(APIError::ValidationFailure.message(), "error during sign in");
    assert_eq!(APIError::PersistenceUniqueViolation.message(), "query error");
    assert_eq!(APIError::PersistenceOtherError.message(), "query error");
    assert_eq!(APIError::Unauthenticated.message(), "not authorised");
    assert_eq!(APIError::ParameterParseFailure.message(), "parsing error");
}

#[test]
fn only_a_unique_violation_is_the_callers_fault() {
    assert_eq!(StoreFailure::UniqueViolation.classify(), APIError::PersistenceUniqueViolation);
    assert_eq!(StoreFailure::ForeignKeyViolation.classify(), APIError::PersistenceOtherError);
    assert_eq!(StoreFailure::NotNullViolation.classify(), APIError::PersistenceOtherError);
    assert_eq!(StoreFailure::CheckViolation.classify(), APIError::PersistenceOtherError);
    assert_eq!(StoreFailure::OtherDatabase.classify(), APIError::PersistenceOtherError);
    assert_eq!(StoreFailure::NotFound.classify(), APIError::PersistenceOtherError);
    assert_eq!(StoreFailure::Other.classify(), APIError::PersistenceOtherError);
}

#[test]
fn a_duplicate_key_from_the_store_is_a_bad_request() {
    let e = database_error(DatabaseErrorKind::UniqueViolation);
    let class = APIError::from_store_error(&e);
    assert_eq!(class, APIError::PersistenceUniqueViolation);
    assert_eq!(class.status(), 400);
}

#[test]
fn other_store_errors_are_server_errors() {
    let errors = vec![
        database_error(DatabaseErrorKind::ForeignKeyViolation),
        database_error(DatabaseErrorKind::NotNullViolation),
        database_error(DatabaseErrorKind::CheckViolation),
        database_error(DatabaseErrorKind::UnableToSendCommand),
        database_error(DatabaseErrorKind::Unknown),
        Error::NotFound,
        Error::RollbackTransaction,
        Error::AlreadyInTransaction,
    ];
    for e in errors {
        let class = APIError::from_store_error(&e);
        assert_eq!(class, APIError::PersistenceOtherError);
        assert_eq!(class.status(), 500);
    }
}

#[test]
fn the_message_text_of_the_store_error_is_not_read() {
    let e = Error::DatabaseError(
        DatabaseErrorKind::Unknown,
        Box::new(String::from("UniqueViolation: duplicate key")),
    );
    assert_eq!(APIError::from_store_error(&e), APIError::PersistenceOtherError);
    let e = Error::DatabaseError(DatabaseErrorKind::UniqueViolation, Box::new(String::new()));
    assert_eq!(APIError::from_store_error(&e), APIError::PersistenceUniqueViolation);
}

#[test]
fn store_outcome_keeps_successes_and_reads_failures() {
    assert_eq!(store_outcome::<usize>(Ok(3)), Ok(3));
    assert_eq!(
        store_outcome::<usize>(Err(database_error(DatabaseErrorKind::UniqueViolation))),
        Err(StoreFailure::UniqueViolation)
    );
    assert_eq!(
        store_outcome::<usize>(Err(database_error(DatabaseErrorKind::ForeignKeyViolation))),
        Err(StoreFailure::ForeignKeyViolation)
    );
    assert_eq!(
        store_outcome::<usize>(Err(database_error(DatabaseErrorKind::NotNullViolation))),
        Err(StoreFailure::NotNullViolation)
    );
    assert_eq!(
        store_outcome::<usize>(Err(database_error(DatabaseErrorKind::CheckViolation))),
        Err(StoreFailure::CheckViolation)
    );
    assert_eq!(
        store_outcome::<usize>(Err(database_error(DatabaseErrorKind::ClosedConnection))),
        Err(StoreFailure::OtherDatabase)
    );
    assert_eq!(store_outcome::<usize>(Err(Error::NotFound)), Err(StoreFailure::NotFound));
    assert_eq!(store_outcome::<usize>(Err(Error::NotInTransaction)), Err(StoreFailure::Other));
}

#[test]
fn the_reply_to_a_failure_carries_its_status_and_message() {
    let reply = APIError::Unauthenticated.respond_to();
    assert_eq!(reply.status, 403);
    assert_eq!(reply.body, "not authorised");
    assert_eq!(reply.cookie, loyalty_api::reply::CookieAction::Keep);
    assert_eq!(APIError::PersistenceOtherError.respond_to().status, 500);
    assert_eq!(APIError::ValidationFailure.respond_to().status, 400);
}

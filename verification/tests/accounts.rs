use authful::models::User;
use authful::models::Timestamp;
use authful::services::{
    login, login_outcome, new_user, signup, signup_outcome, DbError, Error, LoginStep,
};

fn is_uuid_v4(id: u128) -> bool {
    (id >> 76) & 0xf == 4 && (id >> 62) & 0x3 == 2
}

#[test]
fn signup_prepares_account_with_random_v4_uuid() {
    let user = signup("a@b.c", Some("$argon2id$hash".to_string())).unwrap();
    assert_eq!(user.email, "a@b.c");
    assert_eq!(user.password, "$argon2id$hash");
    assert!(is_uuid_v4(user.id));
    let other = signup("a@b.c", Some("$argon2id$hash".to_string())).unwrap();
    assert_ne!(user.id, other.id);
}

#[test]
fn signup_refuses_unhashable_password() {
    assert_eq!(signup("a@b.c", None).unwrap_err(), Error::InvalidPassword);
}

#[test]
fn new_user_keeps_given_id() {
    let user = new_user(42, "x@y.z", Some("h".to_string())).unwrap();
    assert_eq!(user.id, 42);
    assert_eq!(user.email, "x@y.z");
    assert_eq!(user.password, "h");
    assert_eq!(new_user(42, "x@y.z", None).unwrap_err(), Error::InvalidPassword);
}

#[test]
fn signup_outcome_maps_insert_results() {
    assert_eq!(signup_outcome(7, Ok(())), Ok(7));
    assert_eq!(signup_outcome(7, Err(DbError::UniqueViolation)), Err(Error::EmailInUse));
    assert_eq!(
        signup_outcome(7, Err(DbError::Other)),
        Err(Error::DatabaseError(DbError::Other))
    );
    assert_eq!(
        signup_outcome(7, Err(DbError::NotFound)),
        Err(Error::DatabaseError(DbError::NotFound))
    );
}

fn sample_user() -> User {
    User {
        id: 99,
        email: "a@b.c".to_string(),
        password: "$argon2id$stored".to_string(),
        created_at: Timestamp { secs: 1_600_000_000, nanos: 0 },
    }
}

#[test]
fn login_checks_password_of_found_account() {
    assert_eq!(
        login(Ok(sample_user())),
        LoginStep::CheckPassword { user_id: 99, password_hash: "$argon2id$stored".to_string() }
    );
}

#[test]
fn login_rejects_unknown_email_and_failed_lookup() {
    assert_eq!(login(Err(DbError::NotFound)), LoginStep::Rejected(Error::IncorrectCredentials));
    assert_eq!(login(Err(DbError::Other)), LoginStep::Rejected(Error::IncorrectCredentials));
}

#[test]
fn login_outcome_accepts_only_a_verified_password() {
    assert_eq!(login_outcome(99, Some(true)), Ok(99));
    assert_eq!(login_outcome(99, Some(false)), Err(Error::IncorrectCredentials));
    assert_eq!(login_outcome(99, None), Err(Error::IncorrectCredentials));
}

#[test]
fn login_failures_look_alike() {
    let unknown = match login(Err(DbError::NotFound)) {
        LoginStep::Rejected(e) => e,
        other => panic!("unexpected {:?}", other),
    };
    assert_eq!(Err(unknown), login_outcome(1, Some(false)));
    assert_eq!(Err(unknown), login_outcome(1, None));
}

#[test]
fn db_error_converts_into_database_error() {
    assert_eq!(Error::from(DbError::Other), Error::DatabaseError(DbError::Other));
    assert_eq!(Error::from(DbError::UniqueViolation), Error::DatabaseError(DbError::UniqueViolation));
}

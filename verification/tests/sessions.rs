use authful::models::{Session, Timestamp};
use authful::services::{
    authenticate_session, authenticate_session_at, create_session, create_session_outcome,
    delete_session, delete_session_hashed_id, expired_session_outcome, issue_session,
    session_expiry, AuthenticateStep, DbError, Error, SESSION_LIFETIME_SECS, SESSION_TOKEN_LEN,
};
use authful::utils::hash_session_id;
use std::time::{SystemTime, UNIX_EPOCH};

fn ts(secs: i64, nanos: u32) -> Timestamp {
    Timestamp { secs, nanos }
}

fn now_secs() -> i64 {
    SystemTime::now().duration_since(UNIX_EPOCH).unwrap().as_secs() as i64
}

#[test]
fn session_expiry_is_one_day_later() {
    assert_eq!(session_expiry(ts(1_000, 5)), ts(87_400, 5));
    assert_eq!(SESSION_LIFETIME_SECS, 86_400);
}

#[test]
fn session_expiry_of_leap_second_drops_into_next_day() {
    assert_eq!(session_expiry(ts(1_000, 1_250_000_000)), ts(87_400, 250_000_000));
}

#[test]
fn issue_session_keys_row_by_hash_of_token() {
    let s = issue_session("abc".to_string(), 17, ts(10, 0));
    assert_eq!(s.token, "abc");
    assert_eq!(s.id, "ba7816bf8f01cfea414140de5dae2223b00361a396177a9cb410ff61f20015ad");
    assert_eq!(s.user_id, 17);
    assert_eq!(s.expires, ts(86_410, 0));
}

#[test]
fn create_session_makes_alphanumeric_32_char_token() {
    let s = create_session(5);
    assert_eq!(s.token.chars().count(), SESSION_TOKEN_LEN);
    assert!(s.token.chars().all(|c| c.is_ascii_alphanumeric()));
    assert_eq!(s.id, hash_session_id(&s.token));
    assert_eq!(s.id.len(), 64);
    assert!(s.id.chars().all(|c| c.is_ascii_digit() || ('a'..='f').contains(&c)));
    assert_ne!(s.id.chars().count(), SESSION_TOKEN_LEN);
    assert_eq!(s.user_id, 5);
    let other = create_session(5);
    assert_ne!(s.token, other.token);
}

#[test]
fn create_session_expires_one_day_from_now() {
    let before = now_secs();
    let s = create_session(5);
    let after = now_secs();
    assert!(s.expires.secs >= before + 86_400);
    assert!(s.expires.secs <= after + 86_400);
    assert!(s.expires.nanos < 1_000_000_000);
}

#[test]
fn create_session_outcome_returns_token_or_database_error() {
    let s = issue_session("tok".to_string(), 1, ts(0, 0));
    assert_eq!(create_session_outcome(s, Ok(())), Ok("tok".to_string()));
    let s = issue_session("tok".to_string(), 1, ts(0, 0));
    assert_eq!(
        create_session_outcome(s, Err(DbError::Other)),
        Err(Error::DatabaseError(DbError::Other))
    );
}

fn stored(id: &str, user_id: u128, expires: Timestamp) -> Session {
    Session { id: id.to_string(), user_id, expires }
}

#[test]
fn authenticate_session_at_accepts_unexpired_session() {
    let step = authenticate_session_at(Ok(stored("k", 3, ts(100, 0))), ts(50, 0));
    assert_eq!(step, AuthenticateStep::Authenticated(3));
}

#[test]
fn authenticate_session_at_accepts_at_the_exact_expiry() {
    let step = authenticate_session_at(Ok(stored("k", 3, ts(100, 7))), ts(100, 7));
    assert_eq!(step, AuthenticateStep::Authenticated(3));
}

#[test]
fn authenticate_session_at_deletes_expired_session() {
    let step = authenticate_session_at(Ok(stored("k", 3, ts(100, 7))), ts(100, 8));
    assert_eq!(step, AuthenticateStep::DeleteExpired { hashed_id: "k".to_string() });
    let step = authenticate_session_at(Ok(stored("k", 3, ts(100, 7))), ts(101, 0));
    assert_eq!(step, AuthenticateStep::DeleteExpired { hashed_id: "k".to_string() });
}

#[test]
fn authenticate_session_at_rejects_missing_session() {
    assert_eq!(
        authenticate_session_at(Err(DbError::NotFound), ts(0, 0)),
        AuthenticateStep::Rejected(Error::InvalidSession)
    );
    assert_eq!(
        authenticate_session_at(Err(DbError::Other), ts(0, 0)),
        AuthenticateStep::Rejected(Error::InvalidSession)
    );
}

#[test]
fn authenticate_session_uses_the_clock() {
    let far = ts(now_secs() + 1_000_000, 0);
    assert_eq!(authenticate_session(Ok(stored("k", 8, far))), AuthenticateStep::Authenticated(8));
    let past = ts(now_secs() - 1_000, 0);
    assert_eq!(
        authenticate_session(Ok(stored("k", 8, past))),
        AuthenticateStep::DeleteExpired { hashed_id: "k".to_string() }
    );
}

#[test]
fn expired_session_outcome_reports_expiry_or_database_error() {
    assert_eq!(expired_session_outcome(Ok(())), Err(Error::SessionExpired));
    assert_eq!(expired_session_outcome(Err(DbError::Other)), Err(Error::DatabaseError(DbError::Other)));
}

#[test]
fn delete_session_targets_hash_of_token() {
    assert_eq!(
        delete_session("abc"),
        "ba7816bf8f01cfea414140de5dae2223b00361a396177a9cb410ff61f20015ad"
    );
    assert_eq!(delete_session_hashed_id(Ok(())), Ok(()));
    assert_eq!(
        delete_session_hashed_id(Err(DbError::NotFound)),
        Err(Error::DatabaseError(DbError::NotFound))
    );
}

#[test]
fn issued_session_authenticates_its_user_until_expiry() {
    let issued = issue_session("Abc123".to_string(), 21, ts(1_000, 0));
    let mut table = std::collections::HashMap::new();
    table.insert(issued.id.clone(), (issued.user_id, issued.expires));
    let key = hash_session_id(&issued.token);
    let (user_id, expires) = table[&key];
    let row = stored(&key, user_id, expires);
    assert_eq!(authenticate_session_at(Ok(row), ts(87_400, 0)), AuthenticateStep::Authenticated(21));
    let row = stored(&key, user_id, expires);
    assert_eq!(
        authenticate_session_at(Ok(row), ts(87_400, 1)),
        AuthenticateStep::DeleteExpired { hashed_id: key.clone() }
    );
}

#[test]
fn deleted_session_is_rejected() {
    let issued = issue_session("Abc123".to_string(), 21, ts(1_000, 0));
    let mut table = std::collections::HashMap::new();
    table.insert(issued.id.clone(), (issued.user_id, issued.expires));
    table.remove(&delete_session(&issued.token));
    let key = hash_session_id(&issued.token);
    let found = match table.get(&key) {
        Some((u, e)) => Ok(stored(&key, *u, *e)),
        None => Err(DbError::NotFound),
    };
    assert_eq!(
        authenticate_session_at(found, ts(1_000, 0)),
        AuthenticateStep::Rejected(Error::InvalidSession)
    );
}

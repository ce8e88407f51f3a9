//! The account and session operations. Each one that reads or writes the database is
//! split where the database is reached: a function here prepares the row to write or
//! the key to read, the caller runs the query, and a second function here turns the
//! query's outcome into the operation's result.
use vstd::prelude::*;
use chrono::Utc;
use rand::distributions::Alphanumeric;
use rand::Rng;

use crate::models::{Session, Timestamp, User};
use crate::utils::{hash_session_id, hex_lower, is_lower_hex_digit, session_key, sha256_digest};

verus! {

/// What the logic needs to know of a failed database query.
#[derive(Clone, Copy, Debug, PartialEq, Eq, Structural)]
pub enum DbError {
    /// An insert broke a unique constraint (here: the email of an account).
    UniqueViolation,
    /// A query for a single row found none.
    NotFound,
    /// Any other failure.
    Other,
}

/// Why an account or session operation failed.
#[derive(Clone, Copy, Debug, PartialEq, Eq, Structural)]
pub enum Error {
    DatabaseError(DbError),
    EmailInUse,
    IncorrectCredentials,
    InvalidSession,
    SessionExpired,
    InvalidPassword,
}

impl From<DbError> for Error {
    fn from(db_error: DbError) -> (error: Self) {
        Error::DatabaseError(db_error)
    }
}

impl vstd::std_specs::convert::FromSpecImpl<DbError> for Error {
    open spec fn obeys_from_spec() -> bool {
        true
    }

    open spec fn from_spec(v: DbError) -> Self {
        Error::DatabaseError(v)
    }
}

// ---------------------------------------------------------------------------
// Outside sources of randomness and time.

/// rand's `ThreadRng`, declared so that verified code can hold one. Opaque: nothing
/// of its state is visible.
#[verifier::external_type_specification]
#[verifier::external_body]
pub struct ExThreadRng(rand::rngs::ThreadRng);

/// uuid's `Uuid::new_v4`, as a 128-bit number (`Uuid::as_u128`, big-endian). Claimed:
/// the version nibble is 4 and the variant bits are `10` (RFC 4122), which `new_v4` sets
/// on random bytes. It panics if the operating system gives no random bytes.
#[verifier::external_body]
fn new_uuid_v4() -> (id: u128)
    ensures
        is_uuid_v4(id),
{
    uuid::Uuid::new_v4().as_u128()
}

/// rand's `thread_rng`. Nothing is claimed of the generator.
#[verifier::external_body]
fn thread_rng() -> (rng: rand::rngs::ThreadRng) {
    rand::thread_rng()
}

/// One sample of rand's `Alphanumeric` distribution (`Rng::sample`). Claimed: the
/// character is one of `A-Z`, `a-z`, `0-9`, the set that rand 0.7 draws from.
#[verifier::external_body]
fn sample_alphanumeric(rng: &mut rand::rngs::ThreadRng) -> (c: char)
    ensures
        is_ascii_alphanumeric(c),
{
    rng.sample(Alphanumeric)
}

/// std's `String::from_iter` over characters. Claimed: the string holds `chars` in order.
#[verifier::external_body]
fn string_from_chars(chars: &Vec<char>) -> (text: String)
    ensures
        text@ == chars@,
{
    chars.iter().collect()
}

/// chrono's `Utc::now`, read as seconds since the Unix epoch and sub-second nanoseconds.
/// Claimed: the reading is not before the epoch (chrono panics on such a clock), lies
/// within chrono's range of years, and has no leap-second nanoseconds. Which instant it
/// is depends on the clock and is not claimed.
#[verifier::external_body]
fn utc_now() -> (now: Timestamp)
    ensures
        is_clock_reading(now),
{
    let now = Utc::now();
    Timestamp { secs: now.timestamp(), nanos: now.timestamp_subsec_nanos() }
}

// ---------------------------------------------------------------------------
// Specifications.

/// A version 4, RFC 4122 variant UUID.
pub open spec fn is_uuid_v4(id: u128) -> bool {
    &&& (id >> 76u128) & 0xfu128 == 4
    &&& (id >> 62u128) & 0x3u128 == 2
}

/// One of `A-Z`, `a-z`, `0-9`.
pub open spec fn is_ascii_alphanumeric(c: char) -> bool {
    ||| ('A' <= c && c <= 'Z')
    ||| ('a' <= c && c <= 'z')
    ||| ('0' <= c && c <= '9')
}

/// A session token as handed to clients: 32 characters from `A-Z`, `a-z`, `0-9`.
pub open spec fn is_session_token(token: Seq<char>) -> bool {
    &&& token.len() == SESSION_TOKEN_LEN
    &&& forall|i: int| 0 <= i < token.len() ==> is_ascii_alphanumeric(#[trigger] token[i])
}

/// What a read of the system clock can give.
pub open spec fn is_clock_reading(now: Timestamp) -> bool {
    &&& 0 <= now.secs < 10_000_000_000_000
    &&& now.nanos < 1_000_000_000
}

/// One day after `now`, as chrono adds one day to a `NaiveDateTime`: 86400 seconds
/// later, a leap second counting as the second before it.
pub open spec fn expiry_after(now: Timestamp) -> Timestamp {
    Timestamp {
        secs: (now.secs + SESSION_LIFETIME_SECS) as i64,
        nanos: if now.nanos >= 1_000_000_000 {
            (now.nanos - 1_000_000_000) as u32
        } else {
            now.nanos
        },
    }
}

/// The argon2-hashed account that `signup` prepares for insertion.
#[derive(Debug)]
pub struct NewUser {
    pub id: u128,
    pub email: String,
    pub password: String,
}

/// A session that `create_session` prepares for insertion. `token` goes to the client;
/// the row is stored under `id`, the hash of the token.
#[derive(Debug)]
pub struct NewSession {
    pub token: String,
    pub id: String,
    pub user_id: u128,
    pub expires: Timestamp,
}

impl NewSession {
    /// The row is stored under the hash of the token it was issued with.
    pub open spec fn is_keyed_by_token(self) -> bool {
        self.id@ == session_key(self.token@)
    }
}

/// What `login` asks for next.
#[derive(Debug, PartialEq, Eq)]
pub enum LoginStep {
    /// Check the password against this account's stored hash.
    CheckPassword { user_id: u128, password_hash: String },
    /// The login failed.
    Rejected(Error),
}

/// What a stored session says at a given time.
#[derive(Debug, PartialEq, Eq)]
pub enum SessionVerdict {
    Valid(u128),
    Expired,
    Missing,
}

/// What `authenticate_session` asks for next.
#[derive(Debug, PartialEq, Eq)]
pub enum AuthenticateStep {
    /// The session is valid and belongs to this user.
    Authenticated(u128),
    /// The session is not accepted.
    Rejected(Error),
    /// The session has expired: delete the row stored under `hashed_id`, then report
    /// the expiry through `expired_session_outcome`.
    DeleteExpired { hashed_id: String },
}

/// The result of `signup` once the insert of the new account has run.
pub open spec fn signup_result(user_id: u128, inserted: Result<(), DbError>) -> Result<u128, Error> {
    match inserted {
        Ok(()) => Ok(user_id),
        Err(DbError::UniqueViolation) => Err(Error::EmailInUse),
        Err(e) => Err(Error::DatabaseError(e)),
    }
}

/// The result of a login once the password check has run (`None`: the check itself failed).
pub open spec fn login_result(user_id: u128, verified: Option<bool>) -> Result<u128, Error> {
    if verified == Some(true) {
        Ok(user_id)
    } else {
        Err(Error::IncorrectCredentials)
    }
}

/// The first step of a login, from the lookup of the account by email.
pub open spec fn login_step(found: Result<User, DbError>) -> LoginStep {
    match found {
        Ok(user) => LoginStep::CheckPassword { user_id: user.id, password_hash: user.password },
        Err(_) => LoginStep::Rejected(Error::IncorrectCredentials),
    }
}

/// The row of the sessions table that a lookup gave back, if any.
pub open spec fn stored_row(found: Result<Session, DbError>) -> Option<(u128, Timestamp)> {
    match found {
        Ok(session) => Some((session.user_id, session.expires)),
        Err(_) => None,
    }
}

/// A session row read at time `now`: valid until its expiry (inclusive), expired after.
pub open spec fn verdict_of(row: Option<(u128, Timestamp)>, now: Timestamp) -> SessionVerdict {
    match row {
        Some((user_id, expires)) => if now.is_after(expires) {
            SessionVerdict::Expired
        } else {
            SessionVerdict::Valid(user_id)
        },
        None => SessionVerdict::Missing,
    }
}

/// The row stored under `key` in a sessions table, if any.
pub open spec fn lookup(table: Map<Seq<char>, (u128, Timestamp)>, key: Seq<char>) -> Option<(u128, Timestamp)> {
    if table.contains_key(key) {
        Some(table[key])
    } else {
        None
    }
}

/// The account stored under `email` in a users table (id and password hash), if any.
pub open spec fn lookup_account(users: Map<Seq<char>, (u128, Seq<char>)>, email: Seq<char>) -> Option<(u128, Seq<char>)> {
    if users.contains_key(email) {
        Some(users[email])
    } else {
        None
    }
}

/// The result of deleting a session row.
pub open spec fn delete_result(deleted: Result<(), DbError>) -> Result<(), Error> {
    match deleted {
        Ok(()) => Ok(()),
        Err(e) => Err(Error::DatabaseError(e)),
    }
}

/// Length of a session token.
pub const SESSION_TOKEN_LEN: usize = 32;

/// How long a session lasts, in seconds.
pub const SESSION_LIFETIME_SECS: i64 = 86400;


// ---------------------------------------------------------------------------
// Accounts.

/// The account row for `user_email` with the given id. `hashed_password` is the argon2
/// hash of the password, or `None` where hashing failed, which refuses the signup.
pub fn new_user(id: u128, user_email: &str, hashed_password: Option<String>) -> (res: Result<NewUser, Error>)
    ensures
        match hashed_password {
            None => res == Err::<NewUser, Error>(Error::InvalidPassword),
            Some(hash) => res matches Ok(user) && user.id == id && user.email@ == user_email@
                && user.password == hash,
        },
{
    match hashed_password {
        None => Err(Error::InvalidPassword),
        Some(hash) => Ok(NewUser { id, email: user_email.to_owned(), password: hash }),
    }
}

/// Prepares a new account for `user_email` under a fresh random (version 4) UUID.
/// `hashed_password` is the argon2 hash of the password, or `None` where hashing
/// failed, which refuses the signup with `InvalidPassword`.
pub fn signup(user_email: &str, hashed_password: Option<String>) -> (res: Result<NewUser, Error>)
    ensures
        match hashed_password {
            None => res == Err::<NewUser, Error>(Error::InvalidPassword),
            Some(hash) => res matches Ok(user) && is_uuid_v4(user.id) && user.email@ == user_email@
                && user.password == hash,
        },
{
    let id = new_uuid_v4();
    new_user(id, user_email, hashed_password)
}

/// Finishes a signup once the account's insert has run: the new account's id, or
/// `EmailInUse` where the email is taken, or the database error.
pub fn signup_outcome(user_id: u128, inserted: Result<(), DbError>) -> (res: Result<u128, Error>)
    ensures
        res == signup_result(user_id, inserted),
        (inserted is Ok) ==> res == Ok::<u128, Error>(user_id),
        inserted == Err::<(), DbError>(DbError::UniqueViolation) ==> res == Err::<u128, Error>(Error::EmailInUse),
        forall|e: DbError| e != DbError::UniqueViolation && inserted == Err::<(), DbError>(e)
            ==> res == Err::<u128, Error>(Error::DatabaseError(e)),
{
    match inserted {
        Ok(()) => Ok(user_id),
        Err(DbError::UniqueViolation) => Err(Error::EmailInUse),
        Err(e) => Err(Error::DatabaseError(e)),
    }
}

/// Starts a login from the lookup of the account by email. No account, or a failed
/// lookup, refuses the login with `IncorrectCredentials`; otherwise the password is to be
/// checked against the account's hash.
pub fn login(found: Result<User, DbError>) -> (step: LoginStep)
    ensures
        step == login_step(found),
        (found is Ok) ==> step == (LoginStep::CheckPassword { user_id: found->Ok_0.id, password_hash: found->Ok_0.password }),
        (found is Err) ==> step == LoginStep::Rejected(Error::IncorrectCredentials),
{
    match found {
        Ok(user) => LoginStep::CheckPassword { user_id: user.id, password_hash: user.password },
        Err(_) => LoginStep::Rejected(Error::IncorrectCredentials),
    }
}

/// Finishes a login once the password has been checked: `verified` is the check's
/// answer, or `None` where the check failed. Only a match logs the user in.
pub fn login_outcome(user_id: u128, verified: Option<bool>) -> (res: Result<u128, Error>)
    ensures
        res == login_result(user_id, verified),
        (res is Ok) <==> verified == Some(true),
        (res is Ok) ==> res == Ok::<u128, Error>(user_id),
        (res is Err) ==> res == Err::<u128, Error>(Error::IncorrectCredentials),
{
    match verified {
        Some(true) => Ok(user_id),
        _ => Err(Error::IncorrectCredentials),
    }
}

// ---------------------------------------------------------------------------
// Sessions.

/// The expiry of a session created at `now`: one day later.
pub fn session_expiry(now: Timestamp) -> (expires: Timestamp)
    requires
        now.secs <= i64::MAX - SESSION_LIFETIME_SECS,
    ensures
        expires == expiry_after(now),
        expires.secs == now.secs + 86400,
        now.nanos < 1_000_000_000 ==> expires.nanos == now.nanos,
        now.nanos >= 1_000_000_000 ==> expires.nanos == now.nanos - 1_000_000_000,
{
    let nanos = if now.nanos >= 1_000_000_000 {
        now.nanos - 1_000_000_000
    } else {
        now.nanos
    };
    Timestamp { secs: now.secs + SESSION_LIFETIME_SECS, nanos }
}

/// The session row for `token`, issued to `user_id` at `now`: stored under the hash of
/// the token, expiring one day later.
pub fn issue_session(token: String, user_id: u128, now: Timestamp) -> (session: NewSession)
    requires
        now.secs <= i64::MAX - SESSION_LIFETIME_SECS,
    ensures
        session.token == token,
        session.id@ == session_key(token@),
        session.id@ == hex_lower(sha256_digest(token@)),
        session.id@.len() == 64,
        forall|i: int| 0 <= i < session.id@.len() ==> is_lower_hex_digit(#[trigger] session.id@[i]),
        !is_session_token(session.id@),
        session.user_id == user_id,
        session.expires == expiry_after(now),
{
    let id = hash_session_id(token.as_str());
    let expires = session_expiry(now);
    NewSession { token, id, user_id, expires }
}

/// A fresh random session token: 32 characters drawn from `A-Z`, `a-z`, `0-9`.
fn generate_session_token() -> (token: String)
    ensures
        is_session_token(token@),
{
    let mut rng = thread_rng();
    let mut chars: Vec<char> = Vec::new();
    while chars.len() < SESSION_TOKEN_LEN
        invariant
            chars@.len() <= SESSION_TOKEN_LEN,
            forall|i: int| 0 <= i < chars@.len() ==> is_ascii_alphanumeric(#[trigger] chars@[i]),
        decreases SESSION_TOKEN_LEN - chars@.len(),
    {
        let c = sample_alphanumeric(&mut rng);
        chars.push(c);
    }
    string_from_chars(&chars)
}

/// Prepares a new session for `user_uuid`: a fresh random token, the row keyed by its
/// hash, expiring one day after the current time.
pub fn create_session(user_uuid: u128) -> (session: NewSession)
    ensures
        is_session_token(session.token@),
        session.is_keyed_by_token(),
        session.id@ == hex_lower(sha256_digest(session.token@)),
        session.id@.len() == 64,
        forall|i: int| 0 <= i < session.id@.len() ==> is_lower_hex_digit(#[trigger] session.id@[i]),
        !is_session_token(session.id@),
        session.user_id == user_uuid,
        exists|now: Timestamp| is_clock_reading(now) && session.expires == expiry_after(now),
{
    let token = generate_session_token();
    let now = utc_now();
    issue_session(token, user_uuid, now)
}

/// Finishes `create_session` once the row's insert has run: the token for the client,
/// or the database error.
pub fn create_session_outcome(session: NewSession, inserted: Result<(), DbError>) -> (res: Result<String, Error>)
    ensures
        match inserted {
            Ok(()) => res == Ok::<String, Error>(session.token),
            Err(e) => res == Err::<String, Error>(Error::DatabaseError(e)),
        },
{
    match inserted {
        Ok(()) => Ok(session.token),
        Err(e) => Err(Error::DatabaseError(e)),
    }
}

/// Judges the session that the lookup by hashed token gave back, at time `now`: no row
/// (or a failed lookup) is an invalid session, a row past its expiry is to be deleted,
/// any other row authenticates its user.
pub fn authenticate_session_at(found: Result<Session, DbError>, now: Timestamp) -> (step: AuthenticateStep)
    ensures
        (found is Err) ==> step == AuthenticateStep::Rejected(Error::InvalidSession),
        (found is Ok) && (now.secs < found->Ok_0.expires.secs || (now.secs == found->Ok_0.expires.secs
            && now.nanos <= found->Ok_0.expires.nanos)) ==> step == AuthenticateStep::Authenticated(found->Ok_0.user_id),
        (found is Ok) && (now.secs > found->Ok_0.expires.secs || (now.secs == found->Ok_0.expires.secs
            && now.nanos > found->Ok_0.expires.nanos)) ==> step == (AuthenticateStep::DeleteExpired { hashed_id: found->Ok_0.id }),
        match verdict_of(stored_row(found), now) {
            SessionVerdict::Valid(user_id) => step == AuthenticateStep::Authenticated(user_id),
            SessionVerdict::Missing => step == AuthenticateStep::Rejected(Error::InvalidSession),
            SessionVerdict::Expired => found matches Ok(session)
                && step == AuthenticateStep::DeleteExpired { hashed_id: session.id },
        },
{
    match found {
        Err(_) => AuthenticateStep::Rejected(Error::InvalidSession),
        Ok(session) => {
            if now.after(&session.expires) {
                AuthenticateStep::DeleteExpired { hashed_id: session.id }
            } else {
                AuthenticateStep::Authenticated(session.user_id)
            }
        },
    }
}

/// Judges the session that the lookup by hashed token (`hash_session_id`) gave back,
/// at the current time.
pub fn authenticate_session(found: Result<Session, DbError>) -> (step: AuthenticateStep)
    ensures
        exists|now: Timestamp|
            #![trigger verdict_of(stored_row(found), now)]
            is_clock_reading(now) && match verdict_of(stored_row(found), now) {
                SessionVerdict::Valid(user_id) => step == AuthenticateStep::Authenticated(user_id),
                SessionVerdict::Missing => step == AuthenticateStep::Rejected(Error::InvalidSession),
                SessionVerdict::Expired => found matches Ok(session)
                    && step == AuthenticateStep::DeleteExpired { hashed_id: session.id },
            },
{
    let now = utc_now();
    authenticate_session_at(found, now)
}

/// Finishes an authentication whose session had expired, once its row's delete has run:
/// `SessionExpired`, or the database error of the delete.
pub fn expired_session_outcome(deleted: Result<(), DbError>) -> (res: Result<u128, Error>)
    ensures
        match deleted {
            Ok(()) => res == Err::<u128, Error>(Error::SessionExpired),
            Err(e) => res == Err::<u128, Error>(Error::DatabaseError(e)),
        },
{
    match delete_session_hashed_id(deleted) {
        Ok(()) => Err(Error::SessionExpired),
        Err(e) => Err(e),
    }
}

/// The key of the session row to delete for the token `session_id`.
pub fn delete_session(session_id: &str) -> (hashed_id: String)
    ensures
        hashed_id@ == session_key(session_id@),
{
    hash_session_id(session_id)
}

/// Finishes the delete of a session row: done, or the database error.
pub fn delete_session_hashed_id(deleted: Result<(), DbError>) -> (res: Result<(), Error>)
    ensures
        res == delete_result(deleted),
        (res is Ok) <==> (deleted is Ok),
        forall|e: DbError| deleted == Err::<(), DbError>(e) ==> res == Err::<(), Error>(Error::DatabaseError(e)),
{
    match deleted {
        Ok(()) => Ok(()),
        Err(e) => Err(Error::DatabaseError(e)),
    }
}

// ---------------------------------------------------------------------------
// Laws of the session store, over a model of the sessions table that maps each
// stored key to its row (user id, expiry).

/// A session prepared by `create_session` and inserted under its id is found again
/// under the key of the token handed to the client, and that token then authenticates
/// the session's user up to and including its expiry, and is expired after it.
pub proof fn lemma_issued_session_authenticates(
    table: Map<Seq<char>, (u128, Timestamp)>,
    session: NewSession,
    now: Timestamp,
)
    requires
        session.is_keyed_by_token(),
    ensures
        ({
            let stored = table.insert(session.id@, (session.user_id, session.expires));
            let key = session_key(session.token@);
            &&& lookup(stored, key) == Some((session.user_id, session.expires))
            &&& verdict_of(lookup(stored, key), now) == if now.is_after(session.expires) {
                SessionVerdict::Expired
            } else {
                SessionVerdict::Valid(session.user_id)
            }
        }),
{
}

/// A session created at a clock reading `now` lasts exactly one day: it is valid at
/// every instant up to and including `now` plus 86400 seconds, and expired at every
/// instant after.
pub proof fn lemma_session_lasts_one_day(user_id: u128, now: Timestamp, later: Timestamp)
    requires
        is_clock_reading(now),
    ensures
        verdict_of(Some((user_id, expiry_after(now))), now) == SessionVerdict::Valid(user_id),
        verdict_of(Some((user_id, expiry_after(now))), later) == if later.secs > now.secs + 86400
            || (later.secs == now.secs + 86400 && later.nanos > now.nanos) {
            SessionVerdict::Expired
        } else {
            SessionVerdict::Valid(user_id)
        },
{
}

/// Once the row of a token's session has been deleted (by `delete_session`, or by the
/// expiry path of `authenticate_session`), the token finds no session: it is rejected
/// as an invalid session.
pub proof fn lemma_deleted_session_is_rejected(
    table: Map<Seq<char>, (u128, Timestamp)>,
    token: Seq<char>,
    now: Timestamp,
)
    ensures
        verdict_of(lookup(table.remove(session_key(token)), session_key(token)), now)
            == SessionVerdict::Missing,
{
}

/// An expired session is deleted under exactly the key that it was found under, so
/// that the token finds nothing afterwards.
pub proof fn lemma_expired_session_removes_its_key(
    table: Map<Seq<char>, (u128, Timestamp)>,
    found: Session,
    token: Seq<char>,
    now: Timestamp,
)
    requires
        found.id@ == session_key(token),
        now.is_after(found.expires),
    ensures
        verdict_of(stored_row(Ok::<Session, DbError>(found)), now) == SessionVerdict::Expired,
        verdict_of(lookup(table.remove(found.id@), session_key(token)), now) == SessionVerdict::Missing,
{
}

/// A login fails with the same error whether the email is unknown, the lookup failed,
/// the password is wrong, or the password check failed: the answer does not reveal which.
pub proof fn lemma_login_failures_look_alike(user_id: u128, lookup_error: DbError)
    ensures
        login_step(Err::<User, DbError>(lookup_error)) == LoginStep::Rejected(Error::IncorrectCredentials),
        login_result(user_id, Some(false)) == Err::<u128, Error>(Error::IncorrectCredentials),
        login_result(user_id, None) == Err::<u128, Error>(Error::IncorrectCredentials),
        login_result(user_id, Some(true)) == Ok::<u128, Error>(user_id),
{
}

/// An account prepared by `signup` and inserted under its email is what a later login
/// with that email finds: the login goes on to check the password against the stored
/// hash, and a matching password logs in the very account that the signup reported.
pub proof fn lemma_signed_up_account_logs_in(
    users: Map<Seq<char>, (u128, Seq<char>)>,
    account: NewUser,
    found: User,
)
    requires
        found.id == account.id,
        found.email@ == account.email@,
        found.password@ == account.password@,
    ensures
        lookup_account(users.insert(account.email@, (account.id, account.password@)), found.email@)
            == Some((found.id, found.password@)),
        login_step(Ok::<User, DbError>(found)) matches LoginStep::CheckPassword { user_id, password_hash }
            && user_id == account.id && password_hash@ == account.password@
            && login_result(user_id, Some(true)) == signup_result(account.id, Ok(())),
{
}

// ---------------------------------------------------------------------------
// Laws of the outcome functions: what each result must be, for every input.

/// A signup's error depends only on the insert's outcome, never on the new account's id:
/// a taken email is always `EmailInUse`, any other database failure is always passed on
/// as that failure, and a successful insert always reports the new id.
pub proof fn lemma_signup_errors_follow_the_insert(id: u128, other_id: u128, e: DbError)
    ensures
        signup_result(id, Ok(())) == Ok::<u128, Error>(id),
        signup_result(id, Err(DbError::UniqueViolation)) == Err::<u128, Error>(Error::EmailInUse),
        e != DbError::UniqueViolation ==> signup_result(id, Err(e)) == Err::<u128, Error>(Error::DatabaseError(e)),
        signup_result(id, Err(e)) == signup_result(other_id, Err(e)),
        (signup_result(id, Err(e)) is Err),
{
}

/// A delete is reported done only when it succeeded; a failed delete always passes its
/// database failure on, whatever it was.
pub proof fn lemma_failed_delete_is_never_done(deleted: Result<(), DbError>, e: DbError)
    ensures
        delete_result(Err(e)) == Err::<(), Error>(Error::DatabaseError(e)),
        (delete_result(deleted) is Ok) <==> (deleted is Ok),
{
}

/// A found session is judged against its own expiry at the given instant: accepted for
/// its user at every instant not later than the expiry, to be deleted at every instant
/// later than it, and judged the same at equal instants whatever else the row holds.
pub proof fn lemma_session_judged_by_its_expiry(user_id: u128, expires: Timestamp, now: Timestamp)
    ensures
        (now.secs < expires.secs || (now.secs == expires.secs && now.nanos <= expires.nanos))
            ==> verdict_of(Some((user_id, expires)), now) == SessionVerdict::Valid(user_id),
        (now.secs > expires.secs || (now.secs == expires.secs && now.nanos > expires.nanos))
            ==> verdict_of(Some((user_id, expires)), now) == SessionVerdict::Expired,
        verdict_of(Some((user_id, expires)), expires) == SessionVerdict::Valid(user_id),
        verdict_of(None, now) == SessionVerdict::Missing,
{
}

} // verus!

//! Rows of the `users` and `sessions` tables, as the service reads them.
use vstd::prelude::*;

verus! {

/// A point in UTC time: whole seconds since the Unix epoch and the nanoseconds
/// past that second. A `nanos` of one billion or more marks a leap second, the
/// way chrono's `NaiveDateTime` represents one.
#[derive(Clone, Copy, Debug, PartialEq, Eq, Structural)]
pub struct Timestamp {
    pub secs: i64,
    pub nanos: u32,
}

impl Timestamp {
    /// `self` lies strictly later than `other`, in the order of chrono's `NaiveDateTime`.
    pub open spec fn is_after(self, other: Timestamp) -> bool {
        ||| self.secs > other.secs
        ||| (self.secs == other.secs && self.nanos > other.nanos)
    }

    /// Whether `self` lies strictly later than `other`.
    pub fn after(&self, other: &Timestamp) -> (later: bool)
        ensures
            later == self.is_after(*other),
    {
        self.secs > other.secs || (self.secs == other.secs && self.nanos > other.nanos)
    }
}

/// A registered account. `password` holds the argon2 hash of the password, never the
/// password itself.
#[derive(Debug)]
pub struct User {
    pub id: u128,
    pub email: String,
    pub password: String,
    pub created_at: Timestamp,
}

/// A stored session. `id` is the hex SHA-256 hash of the token that the client holds.
#[derive(Debug)]
pub struct Session {
    pub id: String,
    pub user_id: u128,
    pub expires: Timestamp,
}

} // verus!

//! What the HTTP layer decides: which error a client sees for a failed operation, with
//! which status code, and what a request must carry to count as logged in.
use vstd::prelude::*;

use crate::services::Error as AuthError;

verus! {

/// The errors that clients see. They carry no detail that a client should not see, such
/// as a database error.
#[derive(Clone, Copy, Debug, PartialEq, Eq, Structural)]
pub enum Error {
    InternalServerError,
    EmailInUse,
    IncorrectCredentials,
    InvalidSession,
    InvalidPassword,
}

impl Error {
    /// The HTTP status code of the error.
    pub open spec fn spec_status(self) -> u16 {
        match self {
            Error::InternalServerError => 500,
            Error::EmailInUse => 400,
            Error::IncorrectCredentials => 401,
            Error::InvalidSession => 401,
            Error::InvalidPassword => 400,
        }
    }

    /// The HTTP status code of the error: 500 for an internal error, 400 for a taken email
    /// or an unusable password, 401 for wrong credentials or an invalid session.
    pub fn status(&self) -> (code: u16)
        ensures
            code == self.spec_status(),
    {
        match self {
            Error::InternalServerError => 500,
            Error::EmailInUse => 400,
            Error::IncorrectCredentials => 401,
            Error::InvalidSession => 401,
            Error::InvalidPassword => 400,
        }
    }
}

/// The client-facing error for a failed account or session operation.
pub open spec fn from_auth_error(error: AuthError) -> Error {
    match error {
        AuthError::DatabaseError(_) => Error::InternalServerError,
        AuthError::EmailInUse => Error::EmailInUse,
        AuthError::IncorrectCredentials => Error::IncorrectCredentials,
        AuthError::InvalidSession => Error::InvalidSession,
        AuthError::SessionExpired => Error::InvalidSession,
        AuthError::InvalidPassword => Error::InvalidPassword,
    }
}

impl From<AuthError> for Error {
    fn from(error: AuthError) -> (converted: Error) {
        match error {
            AuthError::DatabaseError(_) => Error::InternalServerError,
            AuthError::EmailInUse => Error::EmailInUse,
            AuthError::IncorrectCredentials => Error::IncorrectCredentials,
            AuthError::InvalidSession => Error::InvalidSession,
            AuthError::SessionExpired => Error::InvalidSession,
            AuthError::InvalidPassword => Error::InvalidPassword,
        }
    }
}

impl vstd::std_specs::convert::FromSpecImpl<AuthError> for Error {
    open spec fn obeys_from_spec() -> bool {
        true
    }

    open spec fn from_spec(v: AuthError) -> Self {
        from_auth_error(v)
    }
}

/// The body of an error reply: the status code and the kind of error.
#[derive(Clone, Copy, Debug, PartialEq, Eq, Structural)]
pub struct ErrorResponse {
    pub status: u16,
    pub ty: Error,
}

impl From<Error> for ErrorResponse {
    fn from(error: Error) -> (response: ErrorResponse) {
        ErrorResponse { status: error.status(), ty: error }
    }
}

impl vstd::std_specs::convert::FromSpecImpl<Error> for ErrorResponse {
    open spec fn obeys_from_spec() -> bool {
        true
    }

    open spec fn from_spec(v: Error) -> Self {
        ErrorResponse { status: v.spec_status(), ty: v }
    }
}

/// An error reply as sent: the error response under the key `error`.
#[derive(Clone, Copy, Debug, PartialEq, Eq, Structural)]
pub struct ErrorResponseWrapper {
    pub error: ErrorResponse,
}

impl From<Error> for ErrorResponseWrapper {
    fn from(error: Error) -> (wrapper: ErrorResponseWrapper) {
        ErrorResponseWrapper { error: ErrorResponse::from(error) }
    }
}

impl vstd::std_specs::convert::FromSpecImpl<Error> for ErrorResponseWrapper {
    open spec fn obeys_from_spec() -> bool {
        true
    }

    open spec fn from_spec(v: Error) -> Self {
        ErrorResponseWrapper { error: ErrorResponse { status: v.spec_status(), ty: v } }
    }
}

/// The credentials a client sends to sign up or to log in.
#[derive(Debug)]
pub struct UserForm {
    pub email: String,
    pub password: String,
}

/// A request that carries a valid session: the session's user and its token.
#[derive(Debug)]
pub struct LoggedUser {
    pub id: u128,
    pub session_id: String,
}

impl LoggedUser {
    /// The session token that a request carries in its `session_id` cookie; a request
    /// without one is refused as an invalid session.
    pub fn session_cookie(cookie: Option<String>) -> (res: Result<String, Error>)
        ensures
            match cookie {
                Some(token) => res == Ok::<String, Error>(token),
                None => res == Err::<String, Error>(Error::InvalidSession),
            },
    {
        match cookie {
            Some(token) => Ok(token),
            None => Err(Error::InvalidSession),
        }
    }

    /// The logged-in user for the token `session_id`, once the session has been
    /// authenticated; a failed authentication is turned into the client-facing error.
    pub fn from_authenticated(session_id: String, authenticated: Result<u128, AuthError>) -> (res: Result<LoggedUser, Error>)
        ensures
            match authenticated {
                Ok(id) => res matches Ok(user) && user.id == id && user.session_id == session_id,
                Err(e) => res == Err::<LoggedUser, Error>(from_auth_error(e)),
            },
    {
        match authenticated {
            Ok(id) => Ok(LoggedUser { id, session_id }),
            Err(e) => Err(Error::from(e)),
        }
    }
}

// ---------------------------------------------------------------------------
// Laws.

/// What a client sees of each failed operation: a database error only as an internal
/// server error (500); a taken email or an unusable password as 400; wrong
/// credentials, an unknown session and an expired one alike as 401.
pub proof fn lemma_client_error_status(error: AuthError)
    ensures
        from_auth_error(error).spec_status() == match error {
            AuthError::DatabaseError(_) => 500u16,
            AuthError::EmailInUse | AuthError::InvalidPassword => 400u16,
            AuthError::IncorrectCredentials | AuthError::InvalidSession
            | AuthError::SessionExpired => 401u16,
        },
        error is DatabaseError <==> from_auth_error(error) == Error::InternalServerError,
{
}

/// Every error reply carries the status code of its error.
pub proof fn lemma_error_reply_status(error: Error)
    ensures
        <ErrorResponseWrapper as vstd::std_specs::convert::FromSpec<Error>>::from_spec(error).error.status
            == error.spec_status(),
        <ErrorResponseWrapper as vstd::std_specs::convert::FromSpec<Error>>::from_spec(error).error.ty
            == error,
{
}

} // verus!

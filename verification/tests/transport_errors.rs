use authful::services::{DbError, Error as AuthError};
use authful::transport::{Error, ErrorResponse, ErrorResponseWrapper, LoggedUser, UserForm};

#[test]
fn status_codes() {
    assert_eq!(Error::InternalServerError.status(), 500);
    assert_eq!(Error::EmailInUse.status(), 400);
    assert_eq!(Error::IncorrectCredentials.status(), 401);
    assert_eq!(Error::InvalidSession.status(), 401);
    assert_eq!(Error::InvalidPassword.status(), 400);
}

#[test]
fn auth_errors_become_client_errors() {
    assert_eq!(Error::from(AuthError::DatabaseError(DbError::Other)), Error::InternalServerError);
    assert_eq!(Error::from(AuthError::DatabaseError(DbError::UniqueViolation)), Error::InternalServerError);
    assert_eq!(Error::from(AuthError::EmailInUse), Error::EmailInUse);
    assert_eq!(Error::from(AuthError::IncorrectCredentials), Error::IncorrectCredentials);
    assert_eq!(Error::from(AuthError::InvalidSession), Error::InvalidSession);
    assert_eq!(Error::from(AuthError::SessionExpired), Error::InvalidSession);
    assert_eq!(Error::from(AuthError::InvalidPassword), Error::InvalidPassword);
}

#[test]
fn client_error_status_of_each_auth_error() {
    assert_eq!(Error::from(AuthError::DatabaseError(DbError::NotFound)).status(), 500);
    assert_eq!(Error::from(AuthError::SessionExpired).status(), 401);
    assert_eq!(Error::from(AuthError::IncorrectCredentials).status(), 401);
    assert_eq!(Error::from(AuthError::EmailInUse).status(), 400);
}

#[test]
fn error_response_carries_status() {
    let r = ErrorResponse::from(Error::IncorrectCredentials);
    assert_eq!(r, ErrorResponse { status: 401, ty: Error::IncorrectCredentials });
    let w = ErrorResponseWrapper::from(Error::InternalServerError);
    assert_eq!(w.error, ErrorResponse { status: 500, ty: Error::InternalServerError });
}

#[test]
fn session_cookie_required() {
    assert_eq!(LoggedUser::session_cookie(None).unwrap_err(), Error::InvalidSession);
    assert_eq!(LoggedUser::session_cookie(Some("tok".to_string())).unwrap(), "tok");
}

#[test]
fn logged_user_from_authentication() {
    let u = LoggedUser::from_authenticated("tok".to_string(), Ok(12)).unwrap();
    assert_eq!(u.id, 12);
    assert_eq!(u.session_id, "tok");
    let e = LoggedUser::from_authenticated("tok".to_string(), Err(AuthError::SessionExpired)).unwrap_err();
    assert_eq!(e, Error::InvalidSession);
    let e = LoggedUser::from_authenticated("tok".to_string(), Err(AuthError::DatabaseError(DbError::Other))).unwrap_err();
    assert_eq!(e, Error::InternalServerError);
}

#[test]
fn user_form_holds_credentials() {
    let f = UserForm { email: "a@b.c".to_string(), password: "pw".to_string() };
    assert_eq!(f.email, "a@b.c");
    assert_eq!(f.password, "pw");
}

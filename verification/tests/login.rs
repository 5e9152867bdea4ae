use newsletter::idempotency::UserId;
use newsletter::authentication::AuthError;
use newsletter::login::{login, login_accepted, login_redirect, LoginError};

#[test]
fn an_error_flash_message_is_set_on_failure() {
    let error = login(Err(AuthError::InvalidCredentials("Unknown username.".into()))).unwrap_err();
    let redirect = login_redirect(&error);
    assert_eq!(redirect.response.status(), 303);
    assert_eq!(redirect.response.headers()[0].name, "location");
    assert_eq!(redirect.response.headers()[0].value, b"/login");
    assert_eq!(redirect.flash, "Authentication failed");
}

#[test]
fn redirect_to_admin_dashboard_after_login_success() {
    assert_eq!(login(Ok(UserId(3))).unwrap(), UserId(3));
    let response = login_accepted();
    assert_eq!(response.status(), 303);
    assert_eq!(response.headers()[0].name, "location");
    assert_eq!(response.headers()[0].value, b"/admin/dashboard");
    assert!(response.body().is_empty());
}

#[test]
fn a_failed_check_of_credentials_is_an_unexpected_error() {
    let error = login(Err(AuthError::UnexpectedError("pool timed out".into()))).unwrap_err();
    assert!(matches!(&error, LoginError::UnexpectedError(cause) if cause == "pool timed out"));
    assert_eq!(error.message(), "pool timed out");
    assert_eq!(login_redirect(&error).flash, "pool timed out");
}

#[test]
fn wrong_credentials_keep_their_cause_but_do_not_show_it() {
    let error = login(Err(AuthError::InvalidCredentials("Invalid password.".into()))).unwrap_err();
    assert!(matches!(&error, LoginError::AuthError(cause) if cause == "Invalid password."));
    assert_eq!(error.message(), "Authentication failed");
}

#[test]
fn every_login_error_is_answered_with_a_redirect() {
    assert_eq!(LoginError::AuthError("x".into()).status_code(), 303);
    assert_eq!(LoginError::UnexpectedError("x".into()).status_code(), 303);
}

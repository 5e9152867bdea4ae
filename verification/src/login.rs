//! What a login attempt is answered with.

use crate::authentication::AuthError;
use crate::idempotency::persistence::UserId;
use crate::idempotency::response::{see_other_view, Response, SEE_OTHER};
use vstd::prelude::*;

verus! {

/// Why a login attempt failed.
#[derive(Debug)]
pub enum LoginError {
    /// Something failed that is not the caller's doing; the text says what.
    UnexpectedError(String),
    /// The credentials were not accepted; the text says why.
    AuthError(String),
}

/// What a caller is told when the credentials were not accepted.
pub open spec fn authentication_failed() -> Seq<char> {
    "Authentication failed"@
}

/// What a failed login shows to the caller.
pub open spec fn login_error_message(error: LoginError) -> Seq<char> {
    match error {
        LoginError::UnexpectedError(cause) => cause@,
        LoginError::AuthError(_) => authentication_failed(),
    }
}

impl LoginError {
    /// The status that the error is answered with: always a redirect.
    pub fn status_code(&self) -> (code: u16)
        ensures
            code == SEE_OTHER,
    {
        SEE_OTHER
    }

    /// What the caller is shown: the cause of an unexpected error, and
    /// no more than "Authentication failed" where the credentials were
    /// not accepted.
    pub fn message(&self) -> (m: String)
        ensures
            m@ == login_error_message(*self),
    {
        match self {
            LoginError::UnexpectedError(cause) => cause.clone(),
            LoginError::AuthError(_) => "Authentication failed".to_owned(),
        }
    }
}

/// Where a login that succeeded leads.
pub open spec fn dashboard_page() -> Seq<char> {
    "/admin/dashboard"@
}

/// Where a login that failed leads back to.
pub open spec fn login_page() -> Seq<char> {
    "/login"@
}

/// The answer to a login that failed: the text to show, and the redirect
/// back to the login page.
#[derive(Debug)]
pub struct LoginRedirect {
    pub flash: String,
    pub response: Response,
}

/// Decides a login attempt from the outcome of the check of credentials:
/// the caller whose session is to begin, or the error. Wrong credentials
/// become `AuthError`, a failed check becomes `UnexpectedError`; each
/// keeps its cause.
pub fn login(validation: Result<UserId, AuthError>) -> (r: Result<UserId, LoginError>)
    ensures
        match validation {
            Ok(user_id) => r == Ok::<UserId, LoginError>(user_id),
            Err(AuthError::InvalidCredentials(cause)) => r matches Err(LoginError::AuthError(text))
                && text@ == cause@,
            Err(AuthError::UnexpectedError(cause)) => r matches Err(
                LoginError::UnexpectedError(text),
            ) && text@ == cause@,
        },
{
    match validation {
        Ok(user_id) => Ok(user_id),
        Err(AuthError::InvalidCredentials(cause)) => Err(LoginError::AuthError(cause)),
        Err(AuthError::UnexpectedError(cause)) => Err(LoginError::UnexpectedError(cause)),
    }
}

/// The answer to a login that succeeded: the redirect to the dashboard.
pub fn login_accepted() -> (response: Response)
    ensures
        response@ == see_other_view(dashboard_page()),
{
    Response::see_other("/admin/dashboard")
}

/// The answer to a login that failed with `error`: its message, to be
/// shown once, and the redirect back to the login page.
pub fn login_redirect(error: &LoginError) -> (redirect: LoginRedirect)
    ensures
        redirect.flash@ == login_error_message(*error),
        redirect.response@ == see_other_view(login_page()),
{
    LoginRedirect { flash: error.message(), response: Response::see_other("/login") }
}

} // verus!

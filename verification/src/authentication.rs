//! What the check of credentials takes and what it answers with. The check
//! itself is done elsewhere; here are its plain values.

use vstd::prelude::*;

verus! {

/// What a set of credentials is.
pub struct CredentialsView {
    pub username: Seq<char>,
    pub password: Seq<char>,
}

/// A username and the password offered for it.
#[derive(Debug)]
pub struct Credentials {
    pub username: String,
    pub password: String,
}

impl View for Credentials {
    type V = CredentialsView;

    open spec fn view(&self) -> CredentialsView {
        CredentialsView { username: self.username@, password: self.password@ }
    }
}

/// Why the credentials were not accepted.
#[derive(Debug)]
pub enum AuthError {
    /// The credentials are wrong; the text says how.
    InvalidCredentials(String),
    /// The check itself failed; the text says how.
    UnexpectedError(String),
}

/// What a failed check of credentials is.
pub enum AuthErrorView {
    InvalidCredentials(Seq<char>),
    UnexpectedError(Seq<char>),
}

impl View for AuthError {
    type V = AuthErrorView;

    open spec fn view(&self) -> AuthErrorView {
        match *self {
            AuthError::InvalidCredentials(cause) => AuthErrorView::InvalidCredentials(cause@),
            AuthError::UnexpectedError(cause) => AuthErrorView::UnexpectedError(cause@),
        }
    }
}

} // verus!

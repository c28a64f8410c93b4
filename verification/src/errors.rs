//! The error taxonomy of the authentication subsystem.
//!
//! Every per-request failure is one of these categories; each maps to a
//! stable user-visible message and an HTTP-style status code. Only
//! `ConfigurationError` is fatal, and only at process start.

use vstd::prelude::*;

verus! {

/// Why an authentication operation failed.
#[derive(Clone, Copy, Debug, PartialEq, Eq, Structural)]
pub enum AuthError {
    /// The signing secret was not available at startup (fatal).
    ConfigurationError,
    /// The token's structure or signature is not valid.
    TokenMalformed,
    /// The token is past its expiry time.
    TokenExpired,
    /// The token is cryptographically valid but no live session holds it.
    SessionNotFound,
    /// The password does not match the stored hash.
    InvalidCredentials,
    /// No identity record exists for the given email.
    UserNotFound,
    /// An identity record with the same email already exists.
    EmailAlreadyUsed,
}

impl AuthError {
    /// The user-visible message of each category.
    pub open spec fn spec_message(self) -> Seq<char> {
        match self {
            AuthError::ConfigurationError => "The signing secret is not configured"@,
            AuthError::TokenMalformed => "The token provided is invalid. Please login again"@,
            AuthError::TokenExpired => "Your login token has expired. Please login again."@,
            AuthError::SessionNotFound => "A user was not found for the given session token. Please login again"@,
            AuthError::InvalidCredentials => "Unable to login. The provided password is incorrect"@,
            AuthError::UserNotFound => "Unable to login. The user with the provided email address does not exist"@,
            AuthError::EmailAlreadyUsed => "Unable to create user, another user is using the same email"@,
        }
    }

    /// The HTTP-style status code of each category.
    pub open spec fn spec_status_code(self) -> u16 {
        match self {
            AuthError::ConfigurationError => 500,
            AuthError::TokenMalformed => 401,
            AuthError::TokenExpired => 401,
            AuthError::SessionNotFound => 401,
            AuthError::InvalidCredentials => 401,
            AuthError::UserNotFound => 404,
            AuthError::EmailAlreadyUsed => 400,
        }
    }

    /// The user-visible message for this error.
    pub fn message(&self) -> (r: String)
        ensures
            r@ == self.spec_message(),
    {
        match self {
            AuthError::ConfigurationError => "The signing secret is not configured".to_owned(),
            AuthError::TokenMalformed => "The token provided is invalid. Please login again".to_owned(),
            AuthError::TokenExpired => "Your login token has expired. Please login again.".to_owned(),
            AuthError::SessionNotFound => "A user was not found for the given session token. Please login again".to_owned(),
            AuthError::InvalidCredentials => "Unable to login. The provided password is incorrect".to_owned(),
            AuthError::UserNotFound => "Unable to login. The user with the provided email address does not exist".to_owned(),
            AuthError::EmailAlreadyUsed => "Unable to create user, another user is using the same email".to_owned(),
        }
    }

    /// The HTTP-style status code for this error.
    pub fn status_code(&self) -> (r: u16)
        ensures
            r == self.spec_status_code(),
    {
        match self {
            AuthError::ConfigurationError => 500,
            AuthError::TokenMalformed => 401,
            AuthError::TokenExpired => 401,
            AuthError::SessionNotFound => 401,
            AuthError::InvalidCredentials => 401,
            AuthError::UserNotFound => 404,
            AuthError::EmailAlreadyUsed => 400,
        }
    }
}

} // verus!

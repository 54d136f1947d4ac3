//! What the app asserts of a signed-in store, and how a missing or broken
//! assertion is answered.

use vstd::prelude::*;
use crate::status::STATUS_BAD_REQUEST;
use crate::status::STATUS_INTERNAL_SERVER_ERROR;
use crate::status::STATUS_UNAUTHORIZED;

verus! {

/// The seconds for which the claims of a store hold: one day.
pub const TOKEN_LIFETIME_SECONDS: i64 = 86400;

/// What the app asserts of a signed-in store: the hash of the store, its
/// role, and the second at which the assertion expires.
#[derive(Clone, Debug, PartialEq, Eq)]
pub struct AuthClaims {
    pub sub: String,
    pub role: String,
    pub exp: i64,
}

/// The store that a request was made for.
#[derive(Clone, Debug, PartialEq, Eq)]
pub struct AuthorizedUser(pub String);

/// Why a request could not be told to come from a store.
#[derive(Clone, Copy, Debug, PartialEq, Eq, Structural)]
pub enum Error {
    /// The request carries no token.
    NoToken,
    /// The token of the request does not hold, or is not one.
    InvalidToken,
}

impl AuthClaims {
    /// Whether these are the claims of the store `store_hash` as a user,
    /// issued at the second `issued_at`.
    pub open spec fn is_for_store(&self, store_hash: Seq<char>, issued_at: int) -> bool {
        &&& self.sub@ == store_hash
        &&& self.role@ == "user"@
        &&& self.exp == issued_at + TOKEN_LIFETIME_SECONDS
    }

    /// The claims of the store `store_hash` as a user, issued at the second
    /// `issued_at` and expiring a day later.
    pub fn for_store(store_hash: &str, issued_at: i64) -> (claims: AuthClaims)
        requires
            issued_at + TOKEN_LIFETIME_SECONDS <= i64::MAX,
        ensures
            claims.is_for_store(store_hash@, issued_at as int),
    {
        AuthClaims {
            sub: store_hash.to_owned(),
            role: "user".to_owned(),
            exp: issued_at + TOKEN_LIFETIME_SECONDS,
        }
    }

    /// The store that the claims speak of.
    pub fn authorized_user(&self) -> (user: AuthorizedUser)
        ensures
            user.0@ == self.sub@,
    {
        AuthorizedUser(self.sub.clone())
    }
}

impl Error {
    /// The words of the error.
    pub open spec fn message_text(self) -> Seq<char> {
        match self {
            Error::NoToken => "Token is not provided."@,
            Error::InvalidToken => "Token is invalid."@,
        }
    }

    /// The words of the error.
    pub fn message(&self) -> (words: String)
        ensures
            words@ == self.message_text(),
    {
        match self {
            Error::NoToken => "Token is not provided.".to_owned(),
            Error::InvalidToken => "Token is invalid.".to_owned(),
        }
    }

    /// The status that answers a request with this error: a bad request,
    /// whichever error it is.
    pub fn status_code(&self) -> (status: u16)
        ensures
            status == STATUS_BAD_REQUEST,
    {
        STATUS_BAD_REQUEST
    }

    /// The body that answers a request with this error.
    pub fn response_body(&self) -> (body: &'static str)
        ensures
            body@ == "Invalid token"@,
    {
        "Invalid token"
    }
}

/// Why the claims of a store could not be taken from a request.
#[derive(Clone, Copy, Debug, PartialEq, Eq, Structural)]
pub enum AuthenticationError {
    /// The request carries no bearer token.
    NoTokenProvided,
    /// The token of the request does not hold, or is not one.
    InvalidTokenError,
    /// The server has no secret to hold tokens against.
    InvalidServerConfiguration,
    UnexpectedError,
}

impl AuthenticationError {
    /// The status that answers a request with this error: unauthorized where
    /// the token is missing or does not hold, else an error of the server.
    pub open spec fn status(self) -> u16 {
        match self {
            AuthenticationError::NoTokenProvided => STATUS_UNAUTHORIZED,
            AuthenticationError::InvalidTokenError => STATUS_UNAUTHORIZED,
            AuthenticationError::InvalidServerConfiguration => STATUS_INTERNAL_SERVER_ERROR,
            AuthenticationError::UnexpectedError => STATUS_INTERNAL_SERVER_ERROR,
        }
    }

    /// The status that answers a request with this error.
    pub fn status_code(&self) -> (status: u16)
        ensures
            status == self.status(),
    {
        match self {
            AuthenticationError::NoTokenProvided
            | AuthenticationError::InvalidTokenError => STATUS_UNAUTHORIZED,
            AuthenticationError::InvalidServerConfiguration
            | AuthenticationError::UnexpectedError => STATUS_INTERNAL_SERVER_ERROR,
        }
    }

    /// The words of the error, where it has words of its own.
    pub fn message(&self) -> (words: Option<&'static str>)
        ensures
            match self {
                AuthenticationError::NoTokenProvided => words == Some("No Bearer Token"),
                AuthenticationError::InvalidTokenError => words == Some("Token is invalid."),
                AuthenticationError::InvalidServerConfiguration => words == Some(
                    "Server Configuration Invalid",
                ),
                AuthenticationError::UnexpectedError => words is None,
            },
    {
        match self {
            AuthenticationError::NoTokenProvided => Some("No Bearer Token"),
            AuthenticationError::InvalidTokenError => Some("Token is invalid."),
            AuthenticationError::InvalidServerConfiguration => Some("Server Configuration Invalid"),
            AuthenticationError::UnexpectedError => None,
        }
    }
}

} // verus!

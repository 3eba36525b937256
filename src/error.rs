use vstd::prelude::*;

verus! {

/// The error kinds of the authentication core.
///
/// The three domain kinds are raised where they are detected and passed on
/// unchanged; every failure of storage, hashing or decoding is `Internal`,
/// whose text is kept for diagnostics only.
#[derive(Debug)]
pub enum Error {
    UserExists,
    InvalidCredentials,
    UserUnverified,
    Internal(String),
}

impl Error {
    /// The HTTP status that a transport answers this error with.
    pub fn status_code(&self) -> (r: u16)
        ensures
            r == match self {
                Error::UserExists => 409u16,
                Error::InvalidCredentials => 401u16,
                Error::UserUnverified => 403u16,
                Error::Internal(_) => 500u16,
            },
    {
        match self {
            Error::UserExists => 409,
            Error::InvalidCredentials => 401,
            Error::UserUnverified => 403,
            Error::Internal(_) => 500,
        }
    }

    /// The machine-readable kind shown to clients; internal detail is never
    /// part of it.
    pub fn kind(&self) -> (r: &'static str)
        ensures
            r@ == match self {
                Error::UserExists => "user_exists"@,
                Error::InvalidCredentials => "invalid_credentials"@,
                Error::UserUnverified => "user_unverified"@,
                Error::Internal(_) => "internal_error"@,
            },
    {
        match self {
            Error::UserExists => "user_exists",
            Error::InvalidCredentials => "invalid_credentials",
            Error::UserUnverified => "user_unverified",
            Error::Internal(_) => "internal_error",
        }
    }
}

} // verus!

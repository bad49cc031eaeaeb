//! The closed error taxonomy surfaced at the flow boundary, with the
//! HTTP-style status and message each error maps to.

use vstd::prelude::*;

verus! {

/// The body every error response carries.
#[derive(Debug)]
pub struct ErrorResponse {
    pub error: String,
}

#[derive(Debug, Clone, Copy, PartialEq, Eq, Structural)]
pub enum AuthAPIError {
    UserAlreadyExists,
    InvalidCredentials,
    MalformedInput,
    IncorrectCredentials,
    UnexpectedError,
    MissingToken,
    InvalidToken,
}

impl AuthAPIError {
    /// The HTTP status kind this error surfaces as.
    pub open spec fn spec_status_code(self) -> u16 {
        match self {
            AuthAPIError::UserAlreadyExists => 409,
            AuthAPIError::InvalidCredentials => 400,
            AuthAPIError::MalformedInput => 422,
            AuthAPIError::IncorrectCredentials => 401,
            AuthAPIError::UnexpectedError => 500,
            AuthAPIError::MissingToken => 400,
            AuthAPIError::InvalidToken => 401,
        }
    }

    pub open spec fn spec_message(self) -> Seq<char> {
        match self {
            AuthAPIError::UserAlreadyExists => "User already exists"@,
            AuthAPIError::InvalidCredentials => "Invalid credentials"@,
            AuthAPIError::MalformedInput => "Malformed input"@,
            AuthAPIError::IncorrectCredentials => "Incorrect credentials"@,
            AuthAPIError::UnexpectedError => "Unexpected error"@,
            AuthAPIError::MissingToken => "Missing token"@,
            AuthAPIError::InvalidToken => "Invalid token"@,
        }
    }

    pub fn status_code(&self) -> (r: u16)
        ensures
            r == self.spec_status_code(),
    {
        match self {
            AuthAPIError::UserAlreadyExists => 409,
            AuthAPIError::InvalidCredentials => 400,
            AuthAPIError::MalformedInput => 422,
            AuthAPIError::IncorrectCredentials => 401,
            AuthAPIError::UnexpectedError => 500,
            AuthAPIError::MissingToken => 400,
            AuthAPIError::InvalidToken => 401,
        }
    }

    pub fn message(&self) -> (r: String)
        ensures
            r@ == self.spec_message(),
    {
        match self {
            AuthAPIError::UserAlreadyExists => String::from_str("User already exists"),
            AuthAPIError::InvalidCredentials => String::from_str("Invalid credentials"),
            AuthAPIError::MalformedInput => String::from_str("Malformed input"),
            AuthAPIError::IncorrectCredentials => String::from_str("Incorrect credentials"),
            AuthAPIError::UnexpectedError => String::from_str("Unexpected error"),
            AuthAPIError::MissingToken => String::from_str("Missing token"),
            AuthAPIError::InvalidToken => String::from_str("Invalid token"),
        }
    }
}

} // verus!

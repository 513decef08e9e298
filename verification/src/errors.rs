//! What can go wrong at the boundary of the gateway, and how it is told to
//! the caller.

use vstd::prelude::*;
use crate::schemas::GenericResponse;

verus! {

/// Why a bearer token was turned down.
#[derive(Debug, PartialEq, Eq)]
pub enum CustomJWTTokenError {
    /// The token was valid once and has expired.
    Expired,
    /// The token is not valid, for the reason given.
    Invalid(String),
}

impl CustomJWTTokenError {
    /// The text of the error, as a sequence of characters.
    pub open spec fn text(&self) -> Seq<char> {
        match self {
            CustomJWTTokenError::Expired => "Token expired"@,
            CustomJWTTokenError::Invalid(reason) => reason@,
        }
    }

    /// The text of the error.
    pub fn message(&self) -> (text: String)
        ensures
            text@ == self.text(),
    {
        match self {
            CustomJWTTokenError::Expired => "Token expired".to_owned(),
            CustomJWTTokenError::Invalid(reason) => reason.clone(),
        }
    }
}

/// Why a request was not served.
#[derive(Debug, PartialEq, Eq)]
pub enum GenericError {
    /// The request is malformed or lacks something it must have.
    ValidationError(String),
    /// The caller's credential is missing, invalid or expired.
    InvalidJWT(String),
    /// Something failed behind the gateway, such as the queue.
    UnexpectedError(String),
}

impl GenericError {
    /// The text of the error, as a sequence of characters.
    pub open spec fn text(&self) -> Seq<char> {
        match self {
            GenericError::ValidationError(text) => text@,
            GenericError::InvalidJWT(text) => text@,
            GenericError::UnexpectedError(text) => text@,
        }
    }

    /// The status code that stands for the error: `400` for a request that
    /// is not valid, `401` for a credential that is not, `500` otherwise.
    pub open spec fn code(&self) -> Seq<char> {
        match self {
            GenericError::ValidationError(_) => "400"@,
            GenericError::InvalidJWT(_) => "401"@,
            GenericError::UnexpectedError(_) => "500"@,
        }
    }

    /// The failure envelope that tells the caller of the error.
    pub fn response(&self) -> (response: GenericResponse)
        ensures
            !response.status,
            response.customer_message@ == self.text(),
            response.code@ == self.code(),
    {
        match self {
            GenericError::ValidationError(text) => GenericResponse::error(text.as_str(), "400"),
            GenericError::InvalidJWT(text) => GenericResponse::error(text.as_str(), "401"),
            GenericError::UnexpectedError(text) => GenericResponse::error(text.as_str(), "500"),
        }
    }
}

} // verus!

//! Failures of token creation and token validation.

use vstd::prelude::*;
use vstd::string::StringExecFns;
use crate::errors::users::UserValidationError;

verus! {

/// Why a presented refresh token was not accepted.
#[derive(Clone, Copy, Debug, PartialEq, Eq, Structural)]
pub enum JWTValidationError {
    TokenInvalid,
    TokenRevoked,
    TokenExpired,
    TokenFetchingFailure,
    DuplicateToken,
    TokenNotFound,
}

/// Why a token pair could not be produced.
#[derive(Clone, Debug, PartialEq, Eq)]
pub enum JWTCreationError {
    PrivateKeyNotFound,
    TokenEncodingFailure,
    InvalidPrivateKey,
    RefreshTokenGenerationFailure,
    /// The published key set could not supply a key identifier; the text
    /// says why.
    InvalidTokenData(String),
}

/// Any failure of the token lifecycle.
#[derive(Clone, Debug, PartialEq, Eq)]
pub enum JWTError {
    JWTCreation(JWTCreationError),
    JWTValidation(JWTValidationError),
    UserValidation(UserValidationError),
}

impl JWTValidationError {
    /// The message shown for this failure.
    pub fn message(&self) -> (text: &'static str)
        ensures
            text@ == self.message_text(),
    {
        match self {
            JWTValidationError::TokenInvalid => "Token is invalid",
            JWTValidationError::TokenRevoked => "Refresh token has been revoked",
            JWTValidationError::TokenExpired => "Token has expired",
            JWTValidationError::TokenFetchingFailure => "Failed to fetch refresh token",
            JWTValidationError::DuplicateToken =>
                "A duplicate refresh token was found. Please contact the site administrator",
            JWTValidationError::TokenNotFound => "Refresh token was not found on the database",
        }
    }

    pub open spec fn message_text(&self) -> Seq<char> {
        match self {
            JWTValidationError::TokenInvalid => "Token is invalid"@,
            JWTValidationError::TokenRevoked => "Refresh token has been revoked"@,
            JWTValidationError::TokenExpired => "Token has expired"@,
            JWTValidationError::TokenFetchingFailure => "Failed to fetch refresh token"@,
            JWTValidationError::DuplicateToken =>
                "A duplicate refresh token was found. Please contact the site administrator"@,
            JWTValidationError::TokenNotFound => "Refresh token was not found on the database"@,
        }
    }
}

impl JWTCreationError {
    /// The message shown for this failure.
    pub open spec fn message_text(&self) -> Seq<char> {
        match self {
            JWTCreationError::PrivateKeyNotFound => "Private key file was not found"@,
            JWTCreationError::TokenEncodingFailure => "An error occurred while encoding the JWT"@,
            JWTCreationError::InvalidPrivateKey => "Invalid signing key"@,
            JWTCreationError::RefreshTokenGenerationFailure => "Refresh token creation failed"@,
            JWTCreationError::InvalidTokenData(why) => "Invalid token data: "@ + why@,
        }
    }

    pub fn message(&self) -> (text: String)
        ensures
            text@ == self.message_text(),
    {
        match self {
            JWTCreationError::PrivateKeyNotFound => String::from_str(
                "Private key file was not found",
            ),
            JWTCreationError::TokenEncodingFailure => String::from_str(
                "An error occurred while encoding the JWT",
            ),
            JWTCreationError::InvalidPrivateKey => String::from_str("Invalid signing key"),
            JWTCreationError::RefreshTokenGenerationFailure => String::from_str(
                "Refresh token creation failed",
            ),
            JWTCreationError::InvalidTokenData(why) => String::from_str(
                "Invalid token data: ",
            ).concat(why.as_str()),
        }
    }
}

impl JWTError {
    /// The message shown for this failure: what failed, and the message of
    /// the failure inside.
    pub open spec fn message_text(&self) -> Seq<char> {
        match self {
            JWTError::JWTCreation(e) => "Failed to create JWT: "@ + e.message_text(),
            JWTError::JWTValidation(e) => "Failed to validate JWT: "@ + e.message_text(),
            JWTError::UserValidation(e) => "User validation failed: "@ + e.message_text(),
        }
    }

    pub fn message(&self) -> (text: String)
        ensures
            text@ == self.message_text(),
    {
        match self {
            JWTError::JWTCreation(e) => String::from_str("Failed to create JWT: ").concat(
                e.message().as_str(),
            ),
            JWTError::JWTValidation(e) => String::from_str("Failed to validate JWT: ").concat(
                e.message(),
            ),
            JWTError::UserValidation(e) => String::from_str("User validation failed: ").concat(
                e.message(),
            ),
        }
    }
}

} // verus!

//! Failures of the user collaborator, as the token lifecycle sees them.

use vstd::prelude::*;

verus! {

/// Why a user could not be registered.
#[derive(Clone, Copy, Debug, PartialEq, Eq, Structural)]
pub enum UserCreationError {
    PasswordHashError,
    UserInsertionError,
}

/// Why a user could not be resolved or authenticated.
#[derive(Clone, Copy, Debug, PartialEq, Eq, Structural)]
pub enum UserValidationError {
    InvalidCredentials,
    InvalidPasswordFormat,
    UserNotFound,
    IncorrectPassword,
    InvalidEmail,
}

impl UserCreationError {
    /// The message shown for this failure.
    pub fn message(&self) -> (text: &'static str)
        ensures
            text@ == self.message_text(),
    {
        match self {
            UserCreationError::PasswordHashError => "Password hashing failed",
            UserCreationError::UserInsertionError => "User insertion failed",
        }
    }

    pub open spec fn message_text(&self) -> Seq<char> {
        match self {
            UserCreationError::PasswordHashError => "Password hashing failed"@,
            UserCreationError::UserInsertionError => "User insertion failed"@,
        }
    }
}

impl UserValidationError {
    /// The message shown for this failure.
    pub fn message(&self) -> (text: &'static str)
        ensures
            text@ == self.message_text(),
    {
        match self {
            UserValidationError::InvalidCredentials => "Email or password is invalid",
            UserValidationError::InvalidPasswordFormat =>
                "A database integrity error has occurred. Please contact site administrator",
            UserValidationError::UserNotFound => "User not found",
            UserValidationError::IncorrectPassword => "Password is incorrect",
            UserValidationError::InvalidEmail => "Email doesn't exist",
        }
    }

    pub open spec fn message_text(&self) -> Seq<char> {
        match self {
            UserValidationError::InvalidCredentials => "Email or password is invalid"@,
            UserValidationError::InvalidPasswordFormat =>
                "A database integrity error has occurred. Please contact site administrator"@,
            UserValidationError::UserNotFound => "User not found"@,
            UserValidationError::IncorrectPassword => "Password is incorrect"@,
            UserValidationError::InvalidEmail => "Email doesn't exist"@,
        }
    }
}

} // verus!

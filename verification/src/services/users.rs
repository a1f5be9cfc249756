//! Registering users and resolving the user of a login.

use vstd::prelude::*;
use crate::errors::users::{UserCreationError, UserValidationError};
use crate::models::users::{InsertableUser, LoginFields, User};
use crate::repository::jwt::StoreError;

verus! {

/// `password_hash::Error`: why a password could not be hashed. Only its
/// presence is read.
#[verifier::external_type_specification]
#[verifier::external_body]
pub struct ExPasswordHashError(password_hash::Error);

/// `password_hash::PasswordHash::new` accepts `text`: it is a password hash
/// in the PHC string format.
pub uninterp spec fn is_password_hash(text: Seq<char>) -> bool;

/// `argon2`'s `verify_password`, with its default parameters, accepts
/// `password` for the password hash that `hash` holds in the PHC string
/// format. It is false where the text holds no password hash.
pub uninterp spec fn password_verifies(password: Seq<char>, hash: Seq<char>) -> bool;

/// Hashes a password with `argon2`'s default parameters and a salt drawn
/// from the operating system, and writes the hash as a PHC string.
///
/// Trusted: a hash that comes back is text that
/// `password_hash::PasswordHash::new` accepts, and `verify_password`
/// accepts the password for it. Which text it is depends on the salt.
#[verifier::external_body]
pub(crate) fn hash_password(password: &str) -> (hashed: Result<String, password_hash::Error>)
    ensures
        hashed matches Ok(hash) ==> is_password_hash(hash@) && password_verifies(
            password@,
            hash@,
        ),
{
    let salt = password_hash::SaltString::generate(&mut password_hash::rand_core::OsRng);
    argon2::PasswordHasher::hash_password(
        &argon2::Argon2::default(),
        password.as_bytes(),
        &salt,
    ).map(|hash| hash.to_string())
}

/// Tries `password_hash::PasswordHash::new` on a stored password.
///
/// Trusted: the outcome is a function of the text alone.
#[verifier::external_body]
pub(crate) fn parses_as_password_hash(text: &str) -> (accepted: bool)
    ensures
        accepted == is_password_hash(text@),
{
    password_hash::PasswordHash::new(text).is_ok()
}

/// Parses a stored password hash and verifies a password against it with
/// `argon2`'s `verify_password`.
///
/// Trusted: the outcome is a function of password and hash text alone.
#[verifier::external_body]
pub(crate) fn verify_password(password: &str, hash: &str) -> (accepted: bool)
    ensures
        accepted == password_verifies(password@, hash@),
{
    match password_hash::PasswordHash::new(hash) {
        Ok(parsed) => argon2::PasswordVerifier::verify_password(
            &argon2::Argon2::default(),
            password.as_bytes(),
            &parsed,
        ).is_ok(),
        Err(_) => false,
    }
}

/// The user to insert for `new_user`, given what hashing the password
/// gave: the same user with the hash for a password, or
/// `PasswordHashError` where hashing failed.
pub fn with_hashed_password(new_user: InsertableUser, hashed: Result<String, password_hash::Error>)
    -> (prepared: Result<InsertableUser, UserCreationError>)
    ensures
        match hashed {
            Ok(hash) => prepared matches Ok(user) && user.email == new_user.email && user.role
                == new_user.role && user.password == hash,
            Err(_) => prepared matches Err(e) && e is PasswordHashError,
        },
{
    match hashed {
        Ok(hash) => Ok(InsertableUser { email: new_user.email, password: hash, role: new_user.role }),
        Err(_) => Err(UserCreationError::PasswordHashError),
    }
}

/// Prepares the registration of `new_user`: the user to insert has the
/// same e-mail address and role, and carries in place of the password a
/// password hash against which that password verifies. A failure to hash
/// is `PasswordHashError`.
pub fn create_user(new_user: InsertableUser) -> (prepared: Result<
    InsertableUser,
    UserCreationError,
>)
    ensures
        match prepared {
            Ok(user) => {
                &&& user.email == new_user.email
                &&& user.role == new_user.role
                &&& is_password_hash(user.password@)
                &&& password_verifies(new_user.password@, user.password@)
            },
            Err(e) => e is PasswordHashError,
        },
{
    let hashed = hash_password(new_user.password.as_str());
    with_hashed_password(new_user, hashed)
}

/// Ends a registration with what the store answered to the insertion: the
/// user as stored, or `UserInsertionError` whatever the store's reason.
pub fn created_user(inserted: Result<User, StoreError>) -> (created: Result<
    User,
    UserCreationError,
>)
    ensures
        match inserted {
            Ok(user) => created == Ok::<User, UserCreationError>(user),
            Err(_) => created == Err::<User, UserCreationError>(
                UserCreationError::UserInsertionError,
            ),
        },
{
    match inserted {
        Ok(user) => Ok(user),
        Err(_) => Err(UserCreationError::UserInsertionError),
    }
}

/// What a login with `password` resolves to, given what the store found
/// for the e-mail address: `InvalidEmail` where it found nobody; then
/// `InvalidPasswordFormat` where the stored password is no password hash;
/// then `IncorrectPassword` where the password does not verify against
/// the stored hash; else the user.
pub open spec fn login_outcome(found: Result<User, StoreError>, password: Seq<char>) -> Result<
    User,
    UserValidationError,
> {
    match found {
        Err(_) => Err(UserValidationError::InvalidEmail),
        Ok(user) => if !is_password_hash(user.password@) {
            Err(UserValidationError::InvalidPasswordFormat)
        } else if !password_verifies(password, user.password@) {
            Err(UserValidationError::IncorrectPassword)
        } else {
            Ok(user)
        },
    }
}

/// Verifies the credentials of a login against what the store found for
/// their e-mail address. The user is handed out only where the presented
/// password verifies against the stored hash.
pub fn validate_user(found: Result<User, StoreError>, user_credentials: &LoginFields) -> (resolved:
    Result<User, UserValidationError>)
    ensures
        resolved == login_outcome(found, user_credentials.password@),
{
    match found {
        Err(_) => Err(UserValidationError::InvalidEmail),
        Ok(user) => {
            if !parses_as_password_hash(user.password.as_str()) {
                Err(UserValidationError::InvalidPasswordFormat)
            } else if !verify_password(
                user_credentials.password.as_str(),
                user.password.as_str(),
            ) {
                Err(UserValidationError::IncorrectPassword)
            } else {
                Ok(user)
            }
        },
    }
}

/// A user registered with a password logs in with that password: where
/// the store holds the user as [`create_user`] prepared it, the login
/// resolves to that user.
pub proof fn registered_password_is_accepted(
    new_user: InsertableUser,
    prepared: InsertableUser,
    stored: User,
)
    requires
        is_password_hash(prepared.password@),
        password_verifies(new_user.password@, prepared.password@),
        stored.password@ == prepared.password@,
    ensures
        login_outcome(Ok(stored), new_user.password@) == Ok::<User, UserValidationError>(stored),
{
}

} // verus!

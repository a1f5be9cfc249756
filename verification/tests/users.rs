//! Registering users and resolving the user of a login.

use pandacare_auth::errors::users::{UserCreationError, UserValidationError};
use pandacare_auth::models::users::{InsertableUser, LoginFields, Role, User};
use pandacare_auth::repository::jwt::StoreError;
use pandacare_auth::services::users::{
    create_user, created_user, validate_user, with_hashed_password,
};

fn stored(password: &str) -> User {
    User {
        id: 1,
        email: "login_pacilian_cl@example.com".to_string(),
        password: password.to_string(),
        role: Role::Pacilian,
    }
}

#[test]
fn registration_replaces_the_password_by_its_hash() {
    let new_user = InsertableUser {
        email: "test_pacilian_reg@example.com".to_string(),
        password: "password123".to_string(),
        role: Role::Pacilian,
    };
    let prepared = create_user(new_user).unwrap();
    assert_eq!(prepared.email, "test_pacilian_reg@example.com");
    assert_eq!(prepared.role, Role::Pacilian);
    assert_ne!(prepared.password, "password123");
    assert!(prepared.password.starts_with("$argon2id$"));
    let parsed = argon2::PasswordHash::new(&prepared.password).unwrap();
    assert!(argon2::PasswordVerifier::verify_password(
        &argon2::Argon2::default(),
        b"password123",
        &parsed
    )
    .is_ok());
}

#[test]
fn registration_salts_each_hash() {
    let new_user = InsertableUser {
        email: "test_caregiver_reg@example.com".to_string(),
        password: "password123".to_string(),
        role: Role::Caregiver,
    };
    let first = create_user(new_user.clone()).unwrap();
    let second = create_user(new_user).unwrap();
    assert_ne!(first.password, second.password);
    assert_eq!(first.role, Role::Caregiver);
}

#[test]
fn failed_hashing_is_a_password_hash_error() {
    let new_user = InsertableUser {
        email: "a@example.com".to_string(),
        password: "p".to_string(),
        role: Role::Caregiver,
    };
    assert_eq!(
        with_hashed_password(new_user.clone(), Err(password_hash::Error::Password)),
        Err(UserCreationError::PasswordHashError)
    );
    assert_eq!(
        with_hashed_password(new_user, Ok("$hash".to_string())),
        Ok(InsertableUser {
            email: "a@example.com".to_string(),
            password: "$hash".to_string(),
            role: Role::Caregiver,
        })
    );
}

#[test]
fn failed_insertion_is_a_user_insertion_error() {
    assert_eq!(created_user(Ok(stored("h"))), Ok(stored("h")));
    assert_eq!(
        created_user(Err(StoreError::UniqueViolation)),
        Err(UserCreationError::UserInsertionError)
    );
    assert_eq!(created_user(Err(StoreError::Other)), Err(UserCreationError::UserInsertionError));
}

fn credentials(password: &str) -> LoginFields {
    LoginFields { email: "login_pacilian_cl@example.com".to_string(), password: password.to_string() }
}

fn registered(password: &str) -> User {
    let prepared = create_user(InsertableUser {
        email: "login_pacilian_cl@example.com".to_string(),
        password: password.to_string(),
        role: Role::Pacilian,
    })
    .unwrap();
    stored(&prepared.password)
}

#[test]
fn login_of_unknown_email_is_invalid_email() {
    let presented = credentials("password123");
    assert_eq!(
        validate_user(Err(StoreError::NotFound), &presented),
        Err(UserValidationError::InvalidEmail)
    );
    assert_eq!(
        validate_user(Err(StoreError::Other), &presented),
        Err(UserValidationError::InvalidEmail)
    );
}

#[test]
fn login_with_malformed_stored_password_is_invalid_format() {
    assert_eq!(
        validate_user(Ok(stored("password123")), &credentials("password123")),
        Err(UserValidationError::InvalidPasswordFormat)
    );
    assert_eq!(
        validate_user(Ok(stored("")), &credentials("")),
        Err(UserValidationError::InvalidPasswordFormat)
    );
}

#[test]
fn login_with_the_registered_password_resolves_the_user() {
    let user = registered("password123");
    assert_eq!(validate_user(Ok(user.clone()), &credentials("password123")), Ok(user));
}

#[test]
fn login_with_another_password_is_incorrect_password() {
    let user = registered("password123");
    for wrong in ["password124", "", "Password123", "password123 "] {
        assert_eq!(
            validate_user(Ok(user.clone()), &credentials(wrong)),
            Err(UserValidationError::IncorrectPassword)
        );
    }
}

#[test]
fn login_with_a_hash_without_output_is_incorrect_password() {
    let user = stored("$argon2id$v=19$m=19456,t=2,p=1$c29tZXNhbHQ");
    assert_eq!(
        validate_user(Ok(user), &credentials("password123")),
        Err(UserValidationError::IncorrectPassword)
    );
}

#[test]
fn user_text_is_id_and_email_in_braces() {
    let user = User {
        id: 0x550e8400_e29b_41d4_a716_446655440000,
        email: "refresh_cl@example.com".to_string(),
        password: "x".to_string(),
        role: Role::Caregiver,
    };
    assert_eq!(user.to_text(), "{550e8400-e29b-41d4-a716-446655440000,refresh_cl@example.com}");
}

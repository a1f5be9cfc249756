//! Creating, looking up and revoking refresh tokens, one answer at a time.

use pandacare_auth::clock::Timestamp;
use pandacare_auth::errors::jwt::{JWTCreationError, JWTError, JWTValidationError};
use pandacare_auth::errors::users::{UserCreationError, UserValidationError};
use pandacare_auth::models::jwt::{RefreshTokenCreationDTO, RefreshTokenDTO};
use pandacare_auth::models::users::{Role, User};
use pandacare_auth::repository::jwt::{
    create_refresh_token, get_refresh_token, new_token_row, revocation_of, revoke_refresh_token,
    CreateFlow, CreateStep, RevokeOutcome, StoreError, StoreReply, StoreRequest,
    MAX_CREATE_ATTEMPTS, REFRESH_TOKEN_LENGTH,
};
use pandacare_auth::services::jwt::refresh::{check_revocation, check_token, check_user};

fn user() -> User {
    User {
        id: 0x550e8400_e29b_41d4_a716_446655440000,
        email: "revoke_cl@example.com".to_string(),
        password: "x".to_string(),
        role: Role::Caregiver,
    }
}

fn row(token: &str, revoked: bool) -> RefreshTokenDTO {
    RefreshTokenDTO {
        token: token.to_string(),
        user_id: "550e8400-e29b-41d4-a716-446655440000".to_string(),
        issued_at: Timestamp::new(1_000, 0),
        expired_at: Timestamp::new(2_800, 500),
        revoked,
    }
}

fn collide(flow: CreateFlow) -> CreateStep {
    flow.advance(StoreReply::Inserted(Err(StoreError::UniqueViolation)))
}

#[test]
fn lookup_of_one_row_is_that_row() {
    let found = get_refresh_token(StoreReply::Tokens(Ok(vec![row("t", true)])));
    assert_eq!(found, Ok(row("t", true)));
}

#[test]
fn lookup_of_no_row_is_not_found() {
    let found = get_refresh_token(StoreReply::Tokens(Ok(Vec::new())));
    assert_eq!(found, Err(JWTValidationError::TokenNotFound));
}

#[test]
fn lookup_of_several_rows_is_duplicate() {
    let found = get_refresh_token(StoreReply::Tokens(Ok(vec![row("t", false), row("t", false)])));
    assert_eq!(found, Err(JWTValidationError::DuplicateToken));
    let found = get_refresh_token(StoreReply::Tokens(Ok(vec![
        row("t", false),
        row("u", true),
        row("v", false),
    ])));
    assert_eq!(found, Err(JWTValidationError::DuplicateToken));
}

#[test]
fn lookup_without_rows_from_the_store_is_fetching_failure() {
    for e in [StoreError::Other, StoreError::NotFound, StoreError::UniqueViolation] {
        assert_eq!(
            get_refresh_token(StoreReply::Tokens(Err(e))),
            Err(JWTValidationError::TokenFetchingFailure)
        );
    }
    assert_eq!(
        get_refresh_token(StoreReply::Revoked(Ok(1))),
        Err(JWTValidationError::TokenFetchingFailure)
    );
}

#[test]
fn revocation_outcome_follows_the_rows_marked() {
    assert_eq!(revoke_refresh_token(StoreReply::Revoked(Ok(1))), RevokeOutcome::Revoked);
    assert_eq!(revoke_refresh_token(StoreReply::Revoked(Ok(2))), RevokeOutcome::Revoked);
    assert_eq!(revoke_refresh_token(StoreReply::Revoked(Ok(usize::MAX))), RevokeOutcome::Revoked);
    assert_eq!(revoke_refresh_token(StoreReply::Revoked(Ok(0))), RevokeOutcome::NotModified);
    assert_eq!(
        revoke_refresh_token(StoreReply::Revoked(Err(StoreError::Other))),
        RevokeOutcome::NotModified
    );
    assert_eq!(
        revoke_refresh_token(StoreReply::Inserted(Ok("t".to_string()))),
        RevokeOutcome::NotModified
    );
}

#[test]
fn revocation_asks_to_mark_the_token() {
    assert_eq!(
        revocation_of("nonexistent-token"),
        StoreRequest::RevokeToken { token: "nonexistent-token".to_string() }
    );
}

#[test]
fn new_token_row_expires_lifetime_after_issue() {
    let made = new_token_row("u".to_string(), "t".to_string(), Timestamp::new(1_000, 9), 1800);
    assert_eq!(
        made,
        RefreshTokenCreationDTO {
            token_str: "t".to_string(),
            user_id: "u".to_string(),
            issued_at: Timestamp::new(1_000, 9),
            expired_at: Timestamp::new(2_800, 9),
        }
    );
    let made = new_token_row(String::new(), String::new(), Timestamp::new(0, 0), i64::MIN);
    assert_eq!(made.expired_at, Timestamp::new(i64::MIN, 0));
}

#[test]
fn creation_asks_for_a_fresh_active_row() {
    let before = chrono::Utc::now().timestamp();
    let (_flow, asked) = create_refresh_token(&user(), 1800);
    let after = chrono::Utc::now().timestamp();
    assert_eq!(asked.token_str.len(), REFRESH_TOKEN_LENGTH);
    assert_eq!(asked.token_str.len(), 128);
    assert!(asked.token_str.chars().all(|c| c.is_ascii_alphanumeric()));
    assert_eq!(asked.user_id, "550e8400-e29b-41d4-a716-446655440000");
    assert!(before <= asked.issued_at.secs && asked.issued_at.secs <= after);
    assert!(asked.issued_at.nanos < 1_000_000_000);
    assert_eq!(asked.expired_at, asked.issued_at.add_seconds(1800));
}

#[test]
fn creation_ends_with_the_token_that_the_store_inserted() {
    let (flow, _asked) = create_refresh_token(&user(), 1800);
    match flow.advance(StoreReply::Inserted(Ok("stored-token".to_string()))) {
        CreateStep::Done(Ok(token)) => assert_eq!(token, "stored-token"),
        _ => panic!("the creation did not end with a token"),
    }
}

#[test]
fn collision_is_retried_with_a_fresh_token() {
    let (flow, first) = create_refresh_token(&user(), 60);
    match collide(flow) {
        CreateStep::Ask(_next, second) => {
            assert_ne!(second.token_str, first.token_str);
            assert_eq!(second.token_str.len(), 128);
            assert_eq!(second.user_id, first.user_id);
            assert_eq!(second.expired_at, second.issued_at.add_seconds(60));
        }
        CreateStep::Done(_) => panic!("the creation gave up at once"),
    }
}

#[test]
fn creation_gives_up_after_five_collisions() {
    assert_eq!(MAX_CREATE_ATTEMPTS, 5);
    let (mut flow, _first) = create_refresh_token(&user(), 60);
    let mut asked = 1;
    loop {
        match collide(flow) {
            CreateStep::Ask(next, _row) => {
                asked += 1;
                flow = next;
            }
            CreateStep::Done(result) => {
                assert_eq!(result, Err(JWTCreationError::RefreshTokenGenerationFailure));
                break;
            }
        }
    }
    assert_eq!(asked, 5);
}

#[test]
fn creation_succeeds_on_the_last_attempt() {
    let (mut flow, _first) = create_refresh_token(&user(), 60);
    for _ in 0..4 {
        flow = match collide(flow) {
            CreateStep::Ask(next, _row) => next,
            CreateStep::Done(_) => panic!("the creation gave up early"),
        };
    }
    match flow.advance(StoreReply::Inserted(Ok("fifth".to_string()))) {
        CreateStep::Done(Ok(token)) => assert_eq!(token, "fifth"),
        _ => panic!("the creation did not end with a token"),
    }
}

#[test]
fn other_store_errors_fail_the_creation_at_once() {
    for e in [StoreError::Other, StoreError::NotFound] {
        let (flow, _asked) = create_refresh_token(&user(), 60);
        match flow.advance(StoreReply::Inserted(Err(e))) {
            CreateStep::Done(result) => {
                assert_eq!(result, Err(JWTCreationError::RefreshTokenGenerationFailure))
            }
            CreateStep::Ask(..) => panic!("the creation went on"),
        }
    }
    let (flow, _asked) = create_refresh_token(&user(), 60);
    match flow.advance(StoreReply::Revoked(Ok(1))) {
        CreateStep::Done(result) => {
            assert_eq!(result, Err(JWTCreationError::RefreshTokenGenerationFailure))
        }
        CreateStep::Ask(..) => panic!("the creation went on"),
    }
}

#[test]
fn check_token_hands_out_row_and_user_id() {
    let checked = check_token(StoreReply::Tokens(Ok(vec![row("t", false)])));
    assert_eq!(checked, Ok((row("t", false), 0x550e8400_e29b_41d4_a716_446655440000)));
    let mut odd = row("t", false);
    odd.user_id = "42".to_string();
    assert_eq!(
        check_token(StoreReply::Tokens(Ok(vec![odd]))),
        Err(JWTError::JWTValidation(JWTValidationError::TokenInvalid))
    );
    assert_eq!(
        check_token(StoreReply::Tokens(Ok(Vec::new()))),
        Err(JWTError::JWTValidation(JWTValidationError::TokenNotFound))
    );
}

#[test]
fn check_user_accepts_up_to_the_expiry_and_not_after() {
    let active = row("t", false);
    let at_expiry = Timestamp::new(2_800, 500);
    assert_eq!(check_user(&active, StoreReply::User(Ok(user())), at_expiry), Ok(user()));
    assert_eq!(
        check_user(&active, StoreReply::User(Ok(user())), Timestamp::new(2_800, 499)),
        Ok(user())
    );
    assert_eq!(
        check_user(&active, StoreReply::User(Ok(user())), Timestamp::new(2_800, 501)),
        Err(JWTError::JWTValidation(JWTValidationError::TokenExpired))
    );
    assert_eq!(
        check_user(&active, StoreReply::User(Ok(user())), Timestamp::new(2_801, 0)),
        Err(JWTError::JWTValidation(JWTValidationError::TokenExpired))
    );
    assert_eq!(check_user(&active, StoreReply::User(Ok(user())), Timestamp::new(0, 0)), Ok(user()));
}

#[test]
fn check_user_orders_its_failures() {
    let spent = row("t", true);
    let early = Timestamp::new(0, 0);
    let late = Timestamp::new(9_999, 0);
    assert_eq!(
        check_user(&spent, StoreReply::User(Ok(user())), early),
        Err(JWTError::JWTValidation(JWTValidationError::TokenRevoked))
    );
    assert_eq!(
        check_user(&spent, StoreReply::User(Ok(user())), late),
        Err(JWTError::JWTValidation(JWTValidationError::TokenRevoked))
    );
    assert_eq!(
        check_user(&spent, StoreReply::User(Err(StoreError::NotFound)), late),
        Err(JWTError::UserValidation(UserValidationError::UserNotFound))
    );
    assert_eq!(
        check_user(&row("t", false), StoreReply::User(Err(StoreError::Other)), early),
        Err(JWTError::UserValidation(UserValidationError::UserNotFound))
    );
}

#[test]
fn check_revocation_needs_a_marked_row() {
    assert_eq!(check_revocation(StoreReply::Revoked(Ok(1))), Ok(()));
    assert_eq!(
        check_revocation(StoreReply::Revoked(Ok(0))),
        Err(JWTError::JWTValidation(JWTValidationError::TokenNotFound))
    );
    assert_eq!(
        check_revocation(StoreReply::Revoked(Err(StoreError::Other))),
        Err(JWTError::JWTValidation(JWTValidationError::TokenNotFound))
    );
}

#[test]
fn validation_errors_have_their_messages() {
    assert_eq!(JWTValidationError::TokenInvalid.message(), "Token is invalid");
    assert_eq!(JWTValidationError::TokenRevoked.message(), "Refresh token has been revoked");
    assert_eq!(JWTValidationError::TokenExpired.message(), "Token has expired");
    assert_eq!(
        JWTValidationError::TokenFetchingFailure.message(),
        "Failed to fetch refresh token"
    );
    assert_eq!(
        JWTValidationError::DuplicateToken.message(),
        "A duplicate refresh token was found. Please contact the site administrator"
    );
    assert_eq!(
        JWTValidationError::TokenNotFound.message(),
        "Refresh token was not found on the database"
    );
}

#[test]
fn user_errors_have_their_messages() {
    assert_eq!(UserCreationError::PasswordHashError.message(), "Password hashing failed");
    assert_eq!(UserCreationError::UserInsertionError.message(), "User insertion failed");
    assert_eq!(
        UserValidationError::InvalidCredentials.message(),
        "Email or password is invalid"
    );
    assert_eq!(
        UserValidationError::InvalidPasswordFormat.message(),
        "A database integrity error has occurred. Please contact site administrator"
    );
    assert_eq!(UserValidationError::UserNotFound.message(), "User not found");
    assert_eq!(UserValidationError::IncorrectPassword.message(), "Password is incorrect");
    assert_eq!(UserValidationError::InvalidEmail.message(), "Email doesn't exist");
}

#[test]
fn creation_errors_have_their_messages() {
    assert_eq!(JWTCreationError::PrivateKeyNotFound.message(), "Private key file was not found");
    assert_eq!(
        JWTCreationError::TokenEncodingFailure.message(),
        "An error occurred while encoding the JWT"
    );
    assert_eq!(JWTCreationError::InvalidPrivateKey.message(), "Invalid signing key");
    assert_eq!(
        JWTCreationError::RefreshTokenGenerationFailure.message(),
        "Refresh token creation failed"
    );
    assert_eq!(
        JWTCreationError::InvalidTokenData("JWK not found".to_string()).message(),
        "Invalid token data: JWK not found"
    );
}

#[test]
fn lifecycle_errors_say_what_failed_and_why() {
    assert_eq!(
        JWTError::JWTCreation(JWTCreationError::InvalidPrivateKey).message(),
        "Failed to create JWT: Invalid signing key"
    );
    assert_eq!(
        JWTError::JWTValidation(JWTValidationError::TokenExpired).message(),
        "Failed to validate JWT: Token has expired"
    );
    assert_eq!(
        JWTError::UserValidation(UserValidationError::UserNotFound).message(),
        "User validation failed: User not found"
    );
}

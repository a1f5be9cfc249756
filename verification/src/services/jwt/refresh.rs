//! Rotating a refresh token: the old one is checked and revoked, and a new
//! pair is issued in its place.

use vstd::prelude::*;
use vstd::string::StringExecFns;
use crate::clock::{now, Timestamp};
use crate::errors::jwt::{JWTError, JWTValidationError};
use crate::errors::users::UserValidationError;
use crate::identifiers::{parse_user_id, uuid_from_text};
use crate::models::jwt::{RefreshTokenDTO, TokenRow};
use crate::models::users::{User, UserView};
use crate::repository::jwt::{
    get_refresh_token, revoke_outcome, revoke_refresh_token, single_row, RevokeOutcome,
    StoreReply, StoreReplyView, StoreRequest, StoreRequestView,
};
use crate::services::jwt::claims::Jwt;
use crate::services::jwt::issue::{generate_jwt, issue_begins, IssueFlow, IssueStep};
use crate::services::jwt::signing::TokenSigner;

verus! {

/// A rotation that waits for an answer of the store.
#[derive(Debug)]
pub enum RefreshFlow {
    /// The rows with the presented token were asked for.
    AwaitingToken,
    /// The one row was found, and its user was asked for.
    AwaitingUser { row: RefreshTokenDTO },
    /// The token was active, and its revocation was asked for.
    AwaitingRevocation { user: User },
    /// The token is revoked, and the successor pair is being issued.
    Issuing { issue: IssueFlow },
}

/// What a rotation does next.
#[derive(Debug)]
pub enum RefreshStep {
    /// Send this request to the store, and come back with its answer.
    Ask(RefreshFlow, StoreRequest),
    /// The rotation has ended: with the successor pair, or in failure.
    Done(Result<Jwt, JWTError>),
}

/// What the store's answer to the lookup means: the one row and the user
/// identifier it names; else `TokenFetchingFailure`, `TokenNotFound`,
/// `DuplicateToken`, or `TokenInvalid` where the row names no identifier.
pub open spec fn token_decision(reply: StoreReplyView) -> Result<(TokenRow, u128), JWTError> {
    match single_row(reply) {
        Err(e) => Err(JWTError::JWTValidation(e)),
        Ok(row) => match uuid_from_text(row.user_id) {
            None => Err(JWTError::JWTValidation(JWTValidationError::TokenInvalid)),
            Some(id) => Ok((row, id)),
        },
    }
}

/// What the store's answer to the user lookup means for `row` at the time
/// `at`: `UserNotFound` without a user; then `TokenRevoked` for a revoked
/// row; then `TokenExpired` once `at` is past the row's expiry; else the
/// user.
pub open spec fn user_decision(row: TokenRow, reply: StoreReplyView, at: Timestamp) -> Result<
    UserView,
    JWTError,
> {
    match reply {
        StoreReplyView::User(Ok(user)) => if row.revoked {
            Err(JWTError::JWTValidation(JWTValidationError::TokenRevoked))
        } else if at.is_after(row.expired_at) {
            Err(JWTError::JWTValidation(JWTValidationError::TokenExpired))
        } else {
            Ok(user)
        },
        _ => Err(JWTError::UserValidation(UserValidationError::UserNotFound)),
    }
}

/// What the store's answer to the revocation means: the rotation goes on
/// where a row was marked, and ends in `TokenNotFound` where none was.
pub open spec fn revocation_decision(reply: StoreReplyView) -> Result<(), JWTError> {
    match revoke_outcome(reply) {
        RevokeOutcome::Revoked => Ok(()),
        RevokeOutcome::NotModified => Err(
            JWTError::JWTValidation(JWTValidationError::TokenNotFound),
        ),
    }
}

/// Reads the store's answer to the lookup of the presented token.
pub fn check_token(reply: StoreReply) -> (checked: Result<(RefreshTokenDTO, u128), JWTError>)
    ensures
        match token_decision(reply@) {
            Ok((row, id)) => checked matches Ok(found) && found.0@ == row && found.1 == id,
            Err(e) => checked matches Err(failure) && failure == e,
        },
{
    match get_refresh_token(reply) {
        Err(e) => Err(JWTError::JWTValidation(e)),
        Ok(row) => match parse_user_id(row.user_id.as_str()) {
            None => Err(JWTError::JWTValidation(JWTValidationError::TokenInvalid)),
            Some(id) => Ok((row, id)),
        },
    }
}

/// Reads the store's answer to the lookup of the token's user, and checks
/// the row at the time `at`. Revocation is checked before expiry.
pub fn check_user(row: &RefreshTokenDTO, reply: StoreReply, at: Timestamp) -> (checked: Result<
    User,
    JWTError,
>)
    ensures
        match user_decision(row@, reply@, at) {
            Ok(user) => checked matches Ok(found) && found@ == user,
            Err(e) => checked matches Err(failure) && failure == e,
        },
{
    match reply {
        StoreReply::User(Ok(user)) => {
            if row.revoked {
                Err(JWTError::JWTValidation(JWTValidationError::TokenRevoked))
            } else if at.after(&row.expired_at) {
                Err(JWTError::JWTValidation(JWTValidationError::TokenExpired))
            } else {
                Ok(user)
            }
        },
        _ => Err(JWTError::UserValidation(UserValidationError::UserNotFound)),
    }
}

/// Reads the store's answer to the revocation of the presented token.
pub fn check_revocation(reply: StoreReply) -> (checked: Result<(), JWTError>)
    ensures
        match revocation_decision(reply@) {
            Ok(_) => checked is Ok,
            Err(e) => checked matches Err(failure) && failure == e,
        },
{
    match revoke_refresh_token(reply) {
        RevokeOutcome::Revoked => Ok(()),
        RevokeOutcome::NotModified => Err(
            JWTError::JWTValidation(JWTValidationError::TokenNotFound),
        ),
    }
}

/// `step` ends the rotation in the failure `e`.
pub open spec fn fails_with(step: RefreshStep, e: JWTError) -> bool {
    step matches RefreshStep::Done(Err(failure)) && failure == e
}

/// `step` carries the issuance step `issued` on: its request goes to the
/// store, its pair ends the rotation, and its failure ends the rotation as
/// a creation failure.
pub open spec fn carries_on(step: RefreshStep, issued: IssueStep) -> bool {
    match issued {
        IssueStep::Ask(flow, request) => step matches RefreshStep::Ask(
            RefreshFlow::Issuing { issue },
            asked,
        ) && issue == flow && asked == request,
        IssueStep::Done(Ok(pair)) => step matches RefreshStep::Done(Ok(p)) && p == pair,
        IssueStep::Done(Err(e)) => step matches RefreshStep::Done(
            Err(JWTError::JWTCreation(failure)),
        ) && failure == e,
    }
}

impl RefreshFlow {
    /// What `step` must be where the rotation waited for the rows of the
    /// presented token.
    pub open spec fn after_token(reply: StoreReplyView, step: RefreshStep) -> bool {
        match token_decision(reply) {
            Err(e) => fails_with(step, e),
            Ok((found, id)) => {
                &&& step matches RefreshStep::Ask(RefreshFlow::AwaitingUser { row }, request)
                &&& row@ == found
                &&& request@ == StoreRequestView::FindUser { id }
            },
        }
    }

    /// What `step` must be where the rotation waited for the user of `row`
    /// and read the clock as `at`.
    pub open spec fn after_user(
        row: TokenRow,
        reply: StoreReplyView,
        at: Timestamp,
        step: RefreshStep,
    ) -> bool {
        match user_decision(row, reply, at) {
            Err(e) => fails_with(step, e),
            Ok(found) => {
                &&& step matches RefreshStep::Ask(RefreshFlow::AwaitingRevocation { user }, request)
                &&& user@ == found
                &&& request@ == StoreRequestView::RevokeToken { token: row.token }
            },
        }
    }

    /// What `step` must be where the rotation waited for the revocation of
    /// the presented token, which belongs to `user`.
    pub open spec fn after_revocation<S: TokenSigner>(
        signer: &S,
        user: UserView,
        reply: StoreReplyView,
        step: RefreshStep,
    ) -> bool {
        match revocation_decision(reply) {
            Err(e) => fails_with(step, e),
            Ok(_) => exists|issued: IssueStep| #[trigger]
                issue_begins(signer, user, issued) && carries_on(step, issued),
        }
    }

    /// What `step` must be where the rotation waited for the insertion of
    /// the successor's row.
    pub open spec fn after_insertion(
        issue: IssueFlow,
        reply: StoreReplyView,
        step: RefreshStep,
    ) -> bool {
        exists|issued: IssueStep| #[trigger]
            issue.advances_to(reply, issued) && carries_on(step, issued)
    }

    /// What `step` must be, given the store's `reply` to the request that
    /// this rotation made last. An answer to another request counts as the
    /// failure of the one made.
    pub open spec fn advances_to<S: TokenSigner>(
        self,
        reply: StoreReplyView,
        signer: &S,
        step: RefreshStep,
    ) -> bool {
        match self {
            RefreshFlow::AwaitingToken => RefreshFlow::after_token(reply, step),
            RefreshFlow::AwaitingUser { row } => exists|at: Timestamp|
                at.is_clock_reading() && #[trigger] RefreshFlow::after_user(row@, reply, at, step),
            RefreshFlow::AwaitingRevocation { user } => RefreshFlow::after_revocation(
                signer,
                user@,
                reply,
                step,
            ),
            RefreshFlow::Issuing { issue } => RefreshFlow::after_insertion(issue, reply, step),
        }
    }

    fn carry_on(issued: IssueStep) -> (step: RefreshStep)
        ensures
            carries_on(step, issued),
    {
        match issued {
            IssueStep::Ask(issue, request) => RefreshStep::Ask(
                RefreshFlow::Issuing { issue },
                request,
            ),
            IssueStep::Done(Ok(pair)) => RefreshStep::Done(Ok(pair)),
            IssueStep::Done(Err(e)) => RefreshStep::Done(Err(JWTError::JWTCreation(e))),
        }
    }

    /// Takes the store's answer to the last request and decides what comes
    /// next. The checks come in a fixed order: the row is unique, names a
    /// user, the user exists, the row is not revoked, the row has not
    /// expired by the clock. Only then is the row revoked, and only after
    /// that is the successor pair issued by `signer`.
    pub fn advance<S: TokenSigner>(self, reply: StoreReply, signer: &S) -> (step: RefreshStep)
        ensures
            self.advances_to(reply@, signer, step),
    {
        match self {
            RefreshFlow::AwaitingToken => match check_token(reply) {
                Err(e) => RefreshStep::Done(Err(e)),
                Ok(found) => RefreshStep::Ask(
                    RefreshFlow::AwaitingUser { row: found.0 },
                    StoreRequest::FindUser { id: found.1 },
                ),
            },
            RefreshFlow::AwaitingUser { row } => {
                let at = now();
                let step = match check_user(&row, reply, at) {
                    Err(e) => RefreshStep::Done(Err(e)),
                    Ok(user) => RefreshStep::Ask(
                        RefreshFlow::AwaitingRevocation { user },
                        StoreRequest::RevokeToken { token: row.token },
                    ),
                };
                assert(RefreshFlow::after_user(row@, reply@, at, step));
                step
            },
            RefreshFlow::AwaitingRevocation { user } => match check_revocation(reply) {
                Err(e) => RefreshStep::Done(Err(e)),
                Ok(_) => {
                    let issued = generate_jwt(signer, user);
                    RefreshFlow::carry_on(issued)
                },
            },
            RefreshFlow::Issuing { issue } => {
                let issued = issue.advance(reply);
                RefreshFlow::carry_on(issued)
            },
        }
    }
}

/// Begins the rotation of the refresh token `token_str`: asks the store for
/// the rows with that token.
pub fn refresh_token(token_str: &str) -> (asked: (RefreshFlow, StoreRequest))
    ensures
        asked.0 is AwaitingToken,
        asked.1@ == (StoreRequestView::FindTokens { token: token_str@ }),
{
    (RefreshFlow::AwaitingToken, StoreRequest::FindTokens { token: String::from_str(token_str) })
}

} // verus!

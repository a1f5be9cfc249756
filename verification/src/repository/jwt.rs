//! Requests to the store, its replies, and the three operations on refresh
//! tokens: create, look up, revoke.

use vstd::prelude::*;
use vstd::string::StringExecFns;
use crate::clock::{now, Timestamp, MAX_CLOCK_SECONDS};
use crate::errors::jwt::{JWTCreationError, JWTValidationError};
use crate::identifiers::{user_id_text, uuid_from_text, uuid_text};
use crate::models::jwt::{RefreshTokenCreationDTO, RefreshTokenDTO, TokenRow};
use crate::models::users::{User, UserView};
use rand::Rng;

verus! {

/// The number of characters of a refresh token.
pub const REFRESH_TOKEN_LENGTH: usize = 128;

/// How often one creation asks the store to insert a row: the first attempt
/// and the retries after a collision.
pub const MAX_CREATE_ATTEMPTS: usize = 5;

/// The longest lifetime for which the expiry of a refresh token can always
/// be computed.
pub const MAX_LIFETIME_SECONDS: i64 = i64::MAX - MAX_CLOCK_SECONDS;

/// Why the store did not do what it was asked.
#[derive(Clone, Copy, Debug, PartialEq, Eq, Structural)]
pub enum StoreError {
    /// The row would have been the second with its token.
    UniqueViolation,
    /// No row matched.
    NotFound,
    /// Anything else.
    Other,
}

/// What the token lifecycle asks of the store.
#[derive(Clone, Debug, PartialEq, Eq)]
pub enum StoreRequest {
    /// Select all refresh-token rows with this token.
    FindTokens { token: String },
    /// Select the user with this identifier.
    FindUser { id: u128 },
    /// Mark all refresh-token rows with this token as revoked.
    RevokeToken { token: String },
    /// Insert this refresh-token row, unless its token is taken.
    InsertToken { row: RefreshTokenCreationDTO },
}

/// What the store answers.
#[derive(Debug, PartialEq, Eq)]
pub enum StoreReply {
    /// The rows selected.
    Tokens(Result<Vec<RefreshTokenDTO>, StoreError>),
    /// The user selected.
    User(Result<User, StoreError>),
    /// The number of rows marked.
    Revoked(Result<usize, StoreError>),
    /// The token of the row inserted.
    Inserted(Result<String, StoreError>),
}

/// A [`StoreRequest`] as specifications see it.
pub ghost enum StoreRequestView {
    FindTokens { token: Seq<char> },
    FindUser { id: u128 },
    RevokeToken { token: Seq<char> },
    InsertToken { row: TokenRow },
}

/// A [`StoreReply`] as specifications see it.
pub ghost enum StoreReplyView {
    Tokens(Result<Seq<TokenRow>, StoreError>),
    User(Result<UserView, StoreError>),
    Revoked(Result<nat, StoreError>),
    Inserted(Result<Seq<char>, StoreError>),
}

impl View for StoreRequest {
    type V = StoreRequestView;

    open spec fn view(&self) -> StoreRequestView {
        match self {
            StoreRequest::FindTokens { token } => StoreRequestView::FindTokens { token: token@ },
            StoreRequest::FindUser { id } => StoreRequestView::FindUser { id: *id },
            StoreRequest::RevokeToken { token } => StoreRequestView::RevokeToken { token: token@ },
            StoreRequest::InsertToken { row } => StoreRequestView::InsertToken { row: row@ },
        }
    }
}

impl View for StoreReply {
    type V = StoreReplyView;

    open spec fn view(&self) -> StoreReplyView {
        match self {
            StoreReply::Tokens(Ok(rows)) => StoreReplyView::Tokens(Ok(rows.deep_view())),
            StoreReply::Tokens(Err(e)) => StoreReplyView::Tokens(Err(*e)),
            StoreReply::User(Ok(user)) => StoreReplyView::User(Ok(user@)),
            StoreReply::User(Err(e)) => StoreReplyView::User(Err(*e)),
            StoreReply::Revoked(Ok(rows)) => StoreReplyView::Revoked(Ok(*rows as nat)),
            StoreReply::Revoked(Err(e)) => StoreReplyView::Revoked(Err(*e)),
            StoreReply::Inserted(Ok(token)) => StoreReplyView::Inserted(Ok(token@)),
            StoreReply::Inserted(Err(e)) => StoreReplyView::Inserted(Err(*e)),
        }
    }
}

/// What a lookup yields for the store's answer: the one row selected,
/// `TokenNotFound` where none was, `DuplicateToken` where several were, and
/// `TokenFetchingFailure` for every other answer.
pub open spec fn single_row(reply: StoreReplyView) -> Result<TokenRow, JWTValidationError> {
    match reply {
        StoreReplyView::Tokens(Ok(rows)) => if rows.len() == 0 {
            Err(JWTValidationError::TokenNotFound)
        } else if rows.len() == 1 {
            Ok(rows[0])
        } else {
            Err(JWTValidationError::DuplicateToken)
        },
        _ => Err(JWTValidationError::TokenFetchingFailure),
    }
}

/// Looks a refresh token up in the store's answer to the selection of its
/// rows. Several rows are never resolved by picking one.
pub fn get_refresh_token(reply: StoreReply) -> (row: Result<RefreshTokenDTO, JWTValidationError>)
    ensures
        match single_row(reply@) {
            Ok(only) => row matches Ok(r) && r@ == only,
            Err(e) => row == Err::<RefreshTokenDTO, JWTValidationError>(e),
        },
{
    match reply {
        StoreReply::Tokens(Ok(rows)) => {
            let mut rows = rows;
            let ghost all = rows.deep_view();
            if rows.len() == 0 {
                Err(JWTValidationError::TokenNotFound)
            } else if rows.len() == 1 {
                match rows.pop() {
                    Some(row) => {
                        assert(row@ == all[0]);
                        Ok(row)
                    },
                    None => Err(JWTValidationError::TokenNotFound),
                }
            } else {
                Err(JWTValidationError::DuplicateToken)
            }
        },
        _ => Err(JWTValidationError::TokenFetchingFailure),
    }
}

/// How a revocation ended.
#[derive(Clone, Copy, Debug, PartialEq, Eq, Structural)]
pub enum RevokeOutcome {
    /// At least one row is now marked revoked.
    Revoked,
    /// No row was touched.
    NotModified,
}

/// What a revocation yields for the store's answer: `Revoked` where the
/// store marked at least one row, `NotModified` for every other answer.
pub open spec fn revoke_outcome(reply: StoreReplyView) -> RevokeOutcome {
    match reply {
        StoreReplyView::Revoked(Ok(rows)) => if rows > 0 {
            RevokeOutcome::Revoked
        } else {
            RevokeOutcome::NotModified
        },
        _ => RevokeOutcome::NotModified,
    }
}

/// Begins the revocation of the refresh token `token`: asks the store to
/// mark its rows.
pub fn revocation_of(token: &str) -> (request: StoreRequest)
    ensures
        request@ == (StoreRequestView::RevokeToken { token: token@ }),
{
    StoreRequest::RevokeToken { token: String::from_str(token) }
}

/// Reads the outcome of a revocation off the store's answer. Marking a row
/// that was revoked before counts as revoked; a token that no row carries
/// is no failure, it is not modified.
pub fn revoke_refresh_token(reply: StoreReply) -> (outcome: RevokeOutcome)
    ensures
        outcome == revoke_outcome(reply@),
{
    match reply {
        StoreReply::Revoked(Ok(rows)) => if rows > 0 {
            RevokeOutcome::Revoked
        } else {
            RevokeOutcome::NotModified
        },
        _ => RevokeOutcome::NotModified,
    }
}

/// One of the characters of which refresh tokens are made.
pub open spec fn is_alphanumeric(c: char) -> bool {
    ('0' <= c && c <= '9') || ('a' <= c && c <= 'z') || ('A' <= c && c <= 'Z')
}

/// `text` has `length` characters, all of them letters or digits.
pub open spec fn is_alphanumeric_text(text: Seq<char>, length: usize) -> bool {
    &&& text.len() == length
    &&& forall|i: int| 0 <= i < text.len() ==> is_alphanumeric(#[trigger] text[i])
}

/// Draws `length` characters with `rand`'s thread-local generator and its
/// `Alphanumeric` distribution.
///
/// Trusted: whatever is drawn has that length and holds only ASCII letters
/// and digits.
#[verifier::external_body]
pub(crate) fn random_alphanumeric(length: usize) -> (text: String)
    ensures
        is_alphanumeric_text(text@, length),
{
    rand::rng().sample_iter(rand::distr::Alphanumeric).take(length).map(char::from).collect()
}

/// `row` is what a creation for `user_id` with `lifetime` asks the store to
/// insert: a token of the right make, the user's identifier, an issue time
/// that the clock can show, and the expiry `lifetime` seconds after it.
pub open spec fn is_new_row(row: TokenRow, user_id: Seq<char>, lifetime: i64) -> bool {
    &&& is_alphanumeric_text(row.token, REFRESH_TOKEN_LENGTH)
    &&& row.user_id == user_id
    &&& row.issued_at.is_clock_reading()
    &&& row.expired_at == row.issued_at.plus_seconds(lifetime)
    &&& !row.revoked
}

/// The row for `token`, issued to `user_id` at `issued` and expiring
/// `lifetime` seconds later.
pub fn new_token_row(user_id: String, token: String, issued: Timestamp, lifetime: i64) -> (row:
    RefreshTokenCreationDTO)
    requires
        i64::MIN <= issued.secs + lifetime <= i64::MAX,
    ensures
        row.token_str == token,
        row.user_id == user_id,
        row.issued_at == issued,
        row.expired_at == issued.plus_seconds(lifetime),
{
    RefreshTokenCreationDTO {
        token_str: token,
        user_id,
        issued_at: issued,
        expired_at: issued.add_seconds(lifetime),
    }
}

/// A creation of a refresh token that waits for the store's answer to an
/// insertion.
#[derive(Debug)]
pub struct CreateFlow {
    user_id: String,
    lifetime: i64,
    retries: usize,
}

/// What a creation does next.
#[derive(Debug)]
pub enum CreateStep {
    /// Ask the store to insert this row, and come back with its answer.
    Ask(CreateFlow, RefreshTokenCreationDTO),
    /// The creation has ended: with the token of the row inserted, or in
    /// `RefreshTokenGenerationFailure`.
    Done(Result<String, JWTCreationError>),
}

/// What the store's answer to an insertion means for a creation.
pub ghost enum CreateDecision {
    /// The row is in the store under this token.
    Created(Seq<char>),
    /// The token was taken and another one is to be tried.
    Retry,
    /// The creation fails.
    Failed,
}

/// Reads the store's answer to an insertion: the token where it inserted,
/// another try where the token was taken and tries are left, failure on
/// any other answer.
pub open spec fn create_decision(reply: StoreReplyView, retries: usize) -> CreateDecision {
    match reply {
        StoreReplyView::Inserted(Ok(token)) => CreateDecision::Created(token),
        StoreReplyView::Inserted(Err(StoreError::UniqueViolation)) => if retries > 0 {
            CreateDecision::Retry
        } else {
            CreateDecision::Failed
        },
        _ => CreateDecision::Failed,
    }
}

impl CreateFlow {
    /// The text of the identifier of the user for whom the token is.
    pub closed spec fn user_id(&self) -> Seq<char> {
        self.user_id@
    }

    /// The lifetime of the token, in seconds.
    pub closed spec fn lifetime(&self) -> i64 {
        self.lifetime
    }

    /// How many more times the creation asks again after a collision.
    pub closed spec fn retries(&self) -> usize {
        self.retries
    }

    /// The creation never asks more often than it may, and its lifetime is
    /// one for which the expiry can be computed.
    #[verifier::type_invariant]
    spec fn well_formed(&self) -> bool {
        self.retries < MAX_CREATE_ATTEMPTS && self.lifetime <= MAX_LIFETIME_SECONDS
    }

    /// What `step` must be, given the store's `reply` to the insertion that
    /// this creation asked for.
    pub open spec fn advances_to(&self, reply: StoreReplyView, step: CreateStep) -> bool {
        match create_decision(reply, self.retries()) {
            CreateDecision::Created(token) => step matches CreateStep::Done(Ok(t)) && t@ == token,
            CreateDecision::Failed => step matches CreateStep::Done(Err(e)) && e
                is RefreshTokenGenerationFailure,
            CreateDecision::Retry => {
                &&& step matches CreateStep::Ask(next, row)
                &&& next.user_id() == self.user_id()
                &&& next.lifetime() == self.lifetime()
                &&& next.retries() == self.retries() - 1
                &&& is_new_row(row@, self.user_id(), self.lifetime())
            },
        }
    }

    fn attempt(user_id: String, lifetime: i64, retries: usize) -> (asked: (
        CreateFlow,
        RefreshTokenCreationDTO,
    ))
        requires
            retries < MAX_CREATE_ATTEMPTS,
            lifetime <= MAX_LIFETIME_SECONDS,
        ensures
            asked.0.user_id() == user_id@,
            asked.0.lifetime() == lifetime,
            asked.0.retries() == retries,
            is_new_row(asked.1@, user_id@, lifetime),
    {
        let token = random_alphanumeric(REFRESH_TOKEN_LENGTH);
        let issued = now();
        let row = new_token_row(user_id.clone(), token, issued, lifetime);
        (CreateFlow { user_id, lifetime, retries }, row)
    }

    /// Takes the store's answer to the insertion. The token of the inserted
    /// row ends the creation. A collision is answered with a fresh random
    /// token, as long as tries are left. Everything else ends the creation
    /// in `RefreshTokenGenerationFailure`.
    pub fn advance(self, reply: StoreReply) -> (step: CreateStep)
        ensures
            self.advances_to(reply@, step),
    {
        proof {
            use_type_invariant(&self);
        }
        match reply {
            StoreReply::Inserted(Ok(token)) => CreateStep::Done(Ok(token)),
            StoreReply::Inserted(Err(StoreError::UniqueViolation)) => {
                if self.retries > 0 {
                    let asked = CreateFlow::attempt(self.user_id, self.lifetime, self.retries - 1);
                    CreateStep::Ask(asked.0, asked.1)
                } else {
                    CreateStep::Done(Err(JWTCreationError::RefreshTokenGenerationFailure))
                }
            },
            _ => CreateStep::Done(Err(JWTCreationError::RefreshTokenGenerationFailure)),
        }
    }
}

/// Begins the creation of a refresh token for `user`, to live for
/// `lifetime` seconds: draws a random token and asks the store to insert
/// its row, which is issued now and not revoked.
pub fn create_refresh_token(user: &User, lifetime: i64) -> (asked: (
    CreateFlow,
    RefreshTokenCreationDTO,
))
    requires
        lifetime <= MAX_LIFETIME_SECONDS,
    ensures
        asked.0.user_id() == uuid_text(user.id),
        asked.0.lifetime() == lifetime,
        asked.0.retries() == MAX_CREATE_ATTEMPTS - 1,
        is_new_row(asked.1@, uuid_text(user.id), lifetime),
        uuid_from_text(asked.1@.user_id) == Some(user.id),
{
    CreateFlow::attempt(user_id_text(user.id), lifetime, MAX_CREATE_ATTEMPTS - 1)
}

} // verus!

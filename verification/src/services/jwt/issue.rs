//! Issuing a token pair: sign the access token, then persist the refresh
//! token.

use vstd::prelude::*;
use crate::errors::jwt::JWTCreationError;
use crate::identifiers::{uuid_from_text, uuid_text};
use crate::models::users::{User, UserView};
use crate::repository::jwt::{
    create_decision, create_refresh_token, is_new_row, CreateDecision, CreateFlow, CreateStep,
    StoreReply, StoreReplyView, StoreRequest, StoreRequestView, MAX_CREATE_ATTEMPTS,
};
use crate::services::jwt::claims::{claims_json, Claims, ClaimsView, Jwt, RegisteredClaims};
use crate::services::jwt::signing::{
    is_signed_form, sign_outcome, signing_input, SigningAlgorithm, TokenSigner,
};

verus! {

/// The issuer named in every access token.
pub const ISSUER: &'static str = "Pandacare";

/// The lifetime of an access token, in seconds.
pub const ACCESS_TOKEN_SECONDS: i64 = 300;

/// The lifetime of a refresh token, in seconds.
pub const REFRESH_TOKEN_SECONDS: i64 = 1800;

/// `access` is a signed token over the claim set of an access token for
/// `user`: fresh registered claims of [`ISSUER`] that expire after
/// [`ACCESS_TOKEN_SECONDS`], the user's identifier and the user's role.
pub open spec fn carries_claims_of(
    access: Seq<char>,
    algorithm: SigningAlgorithm,
    key_id: Option<Seq<char>>,
    user: UserView,
) -> bool {
    exists|claims: ClaimsView|
        {
            &&& #[trigger] is_signed_form(
                access,
                signing_input(algorithm, key_id, claims_json(claims)),
            )
            &&& is_access_claims(claims, user)
        }
}

/// An issuance whose access token is signed and whose refresh token waits
/// for the store's answer to an insertion.
#[derive(Debug)]
pub struct IssueFlow {
    access: String,
    create: CreateFlow,
}

/// What an issuance does next.
#[derive(Debug)]
pub enum IssueStep {
    /// Send this request to the store, and come back with its answer.
    Ask(IssueFlow, StoreRequest),
    /// The issuance has ended: with the pair, or in failure.
    Done(Result<Jwt, JWTCreationError>),
}

impl IssueFlow {
    /// The access token that was signed.
    pub closed spec fn access(&self) -> Seq<char> {
        self.access@
    }

    /// The creation of the refresh token.
    pub closed spec fn creation(&self) -> CreateFlow {
        self.create
    }

    /// What `step` must be, given the store's `reply` to the insertion that
    /// this issuance asked for.
    pub open spec fn advances_to(&self, reply: StoreReplyView, step: IssueStep) -> bool {
        match create_decision(reply, self.creation().retries()) {
            CreateDecision::Created(token) => {
                &&& step matches IssueStep::Done(Ok(pair))
                &&& pair.access@ == self.access()
                &&& pair.refresh@ == token
            },
            CreateDecision::Failed => step matches IssueStep::Done(Err(e)) && e
                is RefreshTokenGenerationFailure,
            CreateDecision::Retry => {
                &&& step matches IssueStep::Ask(next, request)
                &&& next.access() == self.access()
                &&& next.creation().user_id() == self.creation().user_id()
                &&& next.creation().lifetime() == self.creation().lifetime()
                &&& next.creation().retries() == self.creation().retries() - 1
                &&& request@ matches StoreRequestView::InsertToken { row }
                &&& is_new_row(row, self.creation().user_id(), self.creation().lifetime())
            },
        }
    }

    /// Takes the store's answer to the insertion. The pair is complete once
    /// the row is inserted; a collision is retried with a fresh token; every
    /// other answer ends the issuance in `RefreshTokenGenerationFailure`,
    /// and the access token that was signed is dropped.
    pub fn advance(self, reply: StoreReply) -> (step: IssueStep)
        ensures
            self.advances_to(reply@, step),
    {
        let access = self.access;
        match self.create.advance(reply) {
            CreateStep::Done(Ok(refresh)) => IssueStep::Done(Ok(Jwt { access, refresh })),
            CreateStep::Done(Err(_)) => IssueStep::Done(
                Err(JWTCreationError::RefreshTokenGenerationFailure),
            ),
            CreateStep::Ask(create, row) => IssueStep::Ask(
                IssueFlow { access, create },
                StoreRequest::InsertToken { row },
            ),
        }
    }
}

/// What an issuance for `user` does with what its signer returned. The
/// signer's failure ends the issuance in that same failure, and nothing is
/// asked of the store. The signer's token is kept as the access token, and
/// the store is asked for the first insertion of a fresh refresh-token row
/// for the user.
pub open spec fn issue_continues(
    signed: Result<String, JWTCreationError>,
    user: UserView,
    step: IssueStep,
) -> bool {
    match signed {
        Err(e) => step == IssueStep::Done(Err::<Jwt, JWTCreationError>(e)),
        Ok(access) => {
            &&& step matches IssueStep::Ask(flow, request)
            &&& flow.access() == access@
            &&& flow.creation().user_id() == uuid_text(user.id)
            &&& flow.creation().lifetime() == REFRESH_TOKEN_SECONDS
            &&& flow.creation().retries() == MAX_CREATE_ATTEMPTS - 1
            &&& request@ matches StoreRequestView::InsertToken { row }
            &&& is_new_row(row, uuid_text(user.id), REFRESH_TOKEN_SECONDS)
            &&& uuid_from_text(row.user_id) == Some(user.id)
        },
    }
}

/// Goes on with an issuance for `user` once the signer has returned:
/// passes the signer's failure on as it is, or keeps the token and asks
/// the store to insert the row of a fresh refresh token.
pub fn issue_signed(signed: Result<String, JWTCreationError>, user: &User) -> (step: IssueStep)
    ensures
        issue_continues(signed, user@, step),
{
    match signed {
        Err(e) => IssueStep::Done(Err(e)),
        Ok(access) => {
            let asked = create_refresh_token(user, REFRESH_TOKEN_SECONDS);
            IssueStep::Ask(
                IssueFlow { access, create: asked.0 },
                StoreRequest::InsertToken { row: asked.1 },
            )
        },
    }
}

/// `claims` is the claim set of an access token for `user`: fresh
/// registered claims of [`ISSUER`] that expire after
/// [`ACCESS_TOKEN_SECONDS`], the user's identifier and the user's role.
pub open spec fn is_access_claims(claims: ClaimsView, user: UserView) -> bool {
    &&& claims.registered_claims.is_fresh(ISSUER@, ACCESS_TOKEN_SECONDS)
    &&& claims == Claims::view_for_user(claims.registered_claims, user)
}

/// What the first step of an issuance by `signer` for `user` must be: what
/// [`issue_continues`] makes of something that the signer may return for
/// the claim set of an access token for the user.
pub open spec fn issue_begins<S: TokenSigner>(signer: &S, user: UserView, step: IssueStep) -> bool {
    exists|claims: ClaimsView, signed: Result<String, JWTCreationError>|
        {
            &&& is_access_claims(claims, user)
            &&& #[trigger] sign_outcome(
                signer.algorithm(),
                signer.key_id(),
                signer.fixed_token(claims_json(claims)),
                claims,
                signed,
            )
            &&& issue_continues(signed, user, step)
        }
}

/// Begins the issuance of a token pair for `user`: builds the user's
/// claims, signs them, and only then asks the store to insert the row of a
/// fresh refresh token. A failure of the signer ends the issuance in that
/// failure before the store is asked anything.
pub fn generate_jwt<S: TokenSigner>(signer: &S, user: User) -> (step: IssueStep)
    ensures
        issue_begins(signer, user@, step),
{
    let registered_claims = RegisteredClaims::new(ISSUER, ACCESS_TOKEN_SECONDS);
    let claims = Claims::for_user(registered_claims, &user);
    let signed = signer.sign(&claims);
    let step = issue_signed(signed, &user);
    assert(sign_outcome(
        signer.algorithm(),
        signer.key_id(),
        signer.fixed_token(claims_json(claims@)),
        claims@,
        signed,
    ));
    step
}

} // verus!

//! What holds of the token lifecycle when it works against a store that
//! behaves as [`crate::repository::model::Store`] does.

use vstd::prelude::*;
use crate::clock::Timestamp;
use crate::errors::jwt::{JWTError, JWTValidationError};
use crate::identifiers::{uuid_from_text, uuid_text};
use crate::models::jwt::TokenRow;
use crate::models::users::UserView;
use crate::repository::jwt::{
    revoke_outcome, CreateFlow, CreateStep, StoreError, StoreReplyView, StoreRequestView,
};
use crate::repository::model::{revoked_if, Store};
use crate::services::jwt::claims::Jwt;
use crate::services::jwt::issue::{
    carries_claims_of, issue_begins, issue_continues, IssueFlow, IssueStep,
    REFRESH_TOKEN_SECONDS,
};
use crate::services::jwt::refresh::{
    fails_with, revocation_decision, token_decision, user_decision, RefreshFlow, RefreshStep,
};
use crate::services::jwt::signing::TokenSigner;

verus! {

/// What a rotation of `token` decides at the time `at` from what `store`
/// answers to its two lookups: the user for whom it goes on to revoke the
/// token and to issue the successor pair, or the failure in which it ends
/// without having changed anything.
pub open spec fn rotation_check(store: Store, token: Seq<char>, at: Timestamp) -> Result<
    UserView,
    JWTError,
> {
    match token_decision(store.answer(StoreRequestView::FindTokens { token })) {
        Err(e) => Err(e),
        Ok((row, id)) => user_decision(row, store.answer(StoreRequestView::FindUser { id }), at),
    }
}

/// The first two steps of a rotation of `token` against `store` are what
/// [`rotation_check`] says: they end in its failure, or they arrive, for
/// its user, at the revocation of that token.
pub proof fn rotation_follows_its_checks(
    store: Store,
    token: Seq<char>,
    at: Timestamp,
    looked_up: RefreshStep,
    checked: RefreshStep,
)
    requires
        RefreshFlow::after_token(
            store.answer(StoreRequestView::FindTokens { token }),
            looked_up,
        ),
        looked_up matches RefreshStep::Ask(RefreshFlow::AwaitingUser { row }, request)
            ==> RefreshFlow::after_user(row@, store.answer(request@), at, checked),
    ensures
        match rotation_check(store, token, at) {
            Err(e) => fails_with(looked_up, e) || (looked_up is Ask && fails_with(checked, e)),
            Ok(found) => {
                &&& looked_up is Ask
                &&& checked matches RefreshStep::Ask(
                    RefreshFlow::AwaitingRevocation { user },
                    request,
                )
                &&& user@ == found
                &&& request@ == StoreRequestView::RevokeToken { token }
            },
        },
{
    store.selection_holds_token(token);
}

/// A revocation is reported as `Revoked` exactly if the store held the
/// token, whether or not its row was revoked before; and afterwards every
/// row with the token is revoked.
pub proof fn revocation_is_reported(store: Store, token: Seq<char>)
    ensures
        revoke_outcome(store.answer(StoreRequestView::RevokeToken { token })) is Revoked
            <==> store.holds(token),
        forall|i: int|
            0 <= i < store.after(StoreRequestView::RevokeToken { token }).rows_with(token).len()
                ==> (#[trigger] store.after(StoreRequestView::RevokeToken { token }).rows_with(
                token,
            )[i]).revoked,
{
    store.selection_holds_token(token);
    store.revocation_marks_selection(token, token);
}

/// Revoking is idempotent: a second revocation of the same token leaves
/// the store as the first left it, and is reported as the first was.
pub proof fn revocation_is_idempotent(store: Store, token: Seq<char>)
    ensures
        store.after(StoreRequestView::RevokeToken { token }).after(
            StoreRequestView::RevokeToken { token },
        ) == store.after(StoreRequestView::RevokeToken { token }),
        revoke_outcome(
            store.after(StoreRequestView::RevokeToken { token }).answer(
                StoreRequestView::RevokeToken { token },
            ),
        ) == revoke_outcome(store.answer(StoreRequestView::RevokeToken { token })),
{
    let once = store.after(StoreRequestView::RevokeToken { token });
    let twice = once.after(StoreRequestView::RevokeToken { token });
    assert(twice.tokens =~= once.tokens);
    store.revocation_marks_selection(token, token);
}

/// `flow` is an issuance by `signer` for `user`: its access token is signed
/// over the user's claims, and its refresh token is created for the user.
pub open spec fn issues_for<S: TokenSigner>(flow: IssueFlow, signer: &S, user: UserView) -> bool {
    &&& signer.key_id() matches Ok(key_id)
    &&& carries_claims_of(flow.access(), signer.algorithm(), key_id, user)
    &&& flow.creation().user_id() == uuid_text(user.id)
    &&& flow.creation().lifetime() == REFRESH_TOKEN_SECONDS
    &&& uuid_from_text(uuid_text(user.id)) == Some(user.id)
}

/// An issuance that has asked for its first insertion is one by its
/// signer for its user.
pub proof fn issuance_begins_for_its_user<S: TokenSigner>(
    signer: &S,
    user: UserView,
    begun: IssueStep,
)
    requires
        issue_begins(signer, user, begun),
    ensures
        begun matches IssueStep::Ask(first, _) ==> issues_for(first, signer, user),
{
}

/// An issuance stays one by the same signer for the same user through
/// every retry, and the pair it ends with holds the access token signed
/// over that user's claims.
pub proof fn issuance_keeps_its_user<S: TokenSigner>(
    signer: &S,
    user: UserView,
    flow: IssueFlow,
    reply: StoreReplyView,
    step: IssueStep,
)
    requires
        issues_for(flow, signer, user),
        flow.advances_to(reply, step),
    ensures
        step matches IssueStep::Ask(next, _) ==> issues_for(next, signer, user),
        step matches IssueStep::Done(Ok(pair)) ==> carries_claims_of(
            pair.access@,
            signer.algorithm(),
            signer.key_id()->Ok_0,
            user,
        ),
{
}

/// Uniqueness: no sequence of requests makes two rows of the store carry
/// the same token.
pub proof fn tokens_stay_unique(store: Store, requests: Seq<StoreRequestView>)
    requires
        store.tokens_are_unique(),
    ensures
        store.after_all(requests).tokens_are_unique(),
    decreases requests.len(),
{
    if requests.len() > 0 {
        tokens_stay_unique(store, requests.drop_last());
        store.after_all(requests.drop_last()).requests_keep_tokens_unique(requests.last());
    }
}

/// Uniqueness: a creation ends with a token only if the store inserted the
/// row; the token was then held by no row before, and is held by exactly
/// that row afterwards.
pub proof fn created_token_is_new(store: Store, flow: CreateFlow, row: TokenRow, token: String)
    requires
        flow.advances_to(
            store.answer(StoreRequestView::InsertToken { row }),
            CreateStep::Done(Ok(token)),
        ),
    ensures
        token@ == row.token,
        !store.holds(row.token),
        store.after(StoreRequestView::InsertToken { row }).rows_with(token@) == seq![row],
{
    store.insertion_extends_selection(row, row.token);
}

/// Expiry: a token whose one row is not revoked and names a user of the
/// store fails rotation with `TokenExpired` at every time after the row's
/// expiry.
pub proof fn expired_token_is_rejected(store: Store, token: Seq<char>, at: Timestamp)
    requires
        store.rows_with(token).len() == 1,
        uuid_from_text(store.rows_with(token)[0].user_id) matches Some(id)
            && store.users.dom().contains(id),
        !store.rows_with(token)[0].revoked,
        at.is_after(store.rows_with(token)[0].expired_at),
    ensures
        rotation_check(store, token, at) == Err::<UserView, JWTError>(
            JWTError::JWTValidation(JWTValidationError::TokenExpired),
        ),
{
}

/// Duplicates: where two rows of the store carry the same token, its
/// rotation fails with `DuplicateToken`, whatever the rows hold.
pub proof fn duplicate_token_is_rejected(
    store: Store,
    token: Seq<char>,
    i: int,
    j: int,
    at: Timestamp,
)
    requires
        0 <= i < j < store.tokens.len(),
        store.tokens[i].token == token,
        store.tokens[j].token == token,
    ensures
        rotation_check(store, token, at) == Err::<UserView, JWTError>(
            JWTError::JWTValidation(JWTValidationError::DuplicateToken),
        ),
{
    store.shared_token_selects_both(token, i, j);
}

/// Duplicates are reported only where rows share a token: against a store
/// in which no two rows do, no rotation fails with `DuplicateToken`.
pub proof fn unique_store_reports_no_duplicate(store: Store, token: Seq<char>, at: Timestamp)
    requires
        store.tokens_are_unique(),
    ensures
        rotation_check(store, token, at) != Err::<UserView, JWTError>(
            JWTError::JWTValidation(JWTValidationError::DuplicateToken),
        ),
{
    store.unique_tokens_select_one(token);
}

/// The one row of `token` in `store` is revoked and names the user `id`,
/// who is in the store.
pub open spec fn is_spent(store: Store, token: Seq<char>, id: u128) -> bool {
    &&& store.rows_with(token).len() == 1
    &&& store.rows_with(token)[0].revoked
    &&& uuid_from_text(store.rows_with(token)[0].user_id) == Some(id)
    &&& store.users.dom().contains(id)
}

/// A spent token stays spent whatever is asked of the store.
pub proof fn spent_token_stays_spent(
    store: Store,
    token: Seq<char>,
    id: u128,
    requests: Seq<StoreRequestView>,
)
    requires
        is_spent(store, token, id),
    ensures
        is_spent(store.after_all(requests), token, id),
    decreases requests.len(),
{
    if requests.len() > 0 {
        spent_token_stays_spent(store, token, id, requests.drop_last());
        let before = store.after_all(requests.drop_last());
        match requests.last() {
            StoreRequestView::RevokeToken { token: revoked } => {
                before.revocation_marks_selection(revoked, token);
            },
            StoreRequestView::InsertToken { row } => {
                before.selection_holds_token(token);
                if !before.holds(row.token) {
                    before.insertion_extends_selection(row, token);
                }
            },
            _ => {},
        }
    }
}

/// Single use: once a rotation of `token` has passed its checks and the
/// store has served its revocation, every later rotation of the same token
/// fails with `TokenRevoked`, whatever was asked of the store in between.
pub proof fn rotated_token_is_rejected(
    store: Store,
    token: Seq<char>,
    at: Timestamp,
    requests: Seq<StoreRequestView>,
    later: Timestamp,
)
    requires
        rotation_check(store, token, at) is Ok,
    ensures
        rotation_check(
            store.after(StoreRequestView::RevokeToken { token }).after_all(requests),
            token,
            later,
        ) == Err::<UserView, JWTError>(JWTError::JWTValidation(JWTValidationError::TokenRevoked)),
{
    let id = uuid_from_text(store.rows_with(token)[0].user_id)->Some_0;
    let revoked = store.after(StoreRequestView::RevokeToken { token });
    store.selection_holds_token(token);
    store.revocation_marks_selection(token, token);
    assert(revoked.rows_with(token)[0] == revoked_if(token)(store.rows_with(token)[0]));
    spent_token_stays_spent(revoked, token, id, requests);
}

/// Round trip: let an issuance for `user` end with `pair` because the
/// store inserted `row`. Then a rotation of the pair's refresh token, at
/// any time up to the row's expiry, passes its checks for that same user.
/// And where the successor issuance, begun after the revocation was
/// served, ends with `next_pair` because the store inserted `next_row`,
/// the new refresh token differs from the old one, and the new access
/// token is signed over the claims of that same user.
pub proof fn rotation_round_trip<S: TokenSigner>(
    signer: &S,
    store: Store,
    user: UserView,
    issue: IssueFlow,
    row: TokenRow,
    pair: Jwt,
    at: Timestamp,
    successor: IssueFlow,
    next_row: TokenRow,
    next_pair: Jwt,
)
    requires
        store.users.dom().contains(user.id),
        store.users[user.id] == user,
        issues_for(issue, signer, user),
        row.user_id == uuid_text(user.id),
        !row.revoked,
        issue.advances_to(
            store.answer(StoreRequestView::InsertToken { row }),
            IssueStep::Done(Ok(pair)),
        ),
        !at.is_after(row.expired_at),
        issues_for(successor, signer, user),
        successor.advances_to(
            store.after(StoreRequestView::InsertToken { row }).after(
                StoreRequestView::RevokeToken { token: pair.refresh@ },
            ).answer(StoreRequestView::InsertToken { row: next_row }),
            IssueStep::Done(Ok(next_pair)),
        ),
    ensures
        rotation_check(store.after(StoreRequestView::InsertToken { row }), pair.refresh@, at)
            == Ok::<UserView, JWTError>(user),
        next_pair.refresh@ != pair.refresh@,
        carries_claims_of(
            next_pair.access@,
            signer.algorithm(),
            signer.key_id()->Ok_0,
            user,
        ),
{
    let inserted = store.after(StoreRequestView::InsertToken { row });
    let revoked = inserted.after(StoreRequestView::RevokeToken { token: row.token });
    store.insertion_extends_selection(row, row.token);
    inserted.selection_holds_token(row.token);
    inserted.revocation_marks_selection(row.token, row.token);
    revoked.selection_holds_token(row.token);
}

/// `step` asks the store to insert `row`, and goes on as `flow`.
pub open spec fn asks_to_insert(step: IssueStep, flow: IssueFlow, row: TokenRow) -> bool {
    &&& step matches IssueStep::Ask(asking, request)
    &&& asking == flow
    &&& request@ == StoreRequestView::InsertToken { row }
}

/// Issuance with a working signer and an accepting store: where the signer
/// returned `access` and the store holds no row with the token drawn, the
/// issuance asks for the insertion of a row and ends, on the store's
/// answer, with the pair of that access token and the row's token. The
/// store has then gained exactly that row: of the user, not revoked,
/// expiring [`REFRESH_TOKEN_SECONDS`] after its issue.
pub proof fn issuance_ends_with_a_pair(
    store: Store,
    user: UserView,
    access: String,
    begun: IssueStep,
    flow: IssueFlow,
    row: TokenRow,
    done: IssueStep,
)
    requires
        issue_continues(Ok(access), user, begun),
        asks_to_insert(begun, flow, row),
        !store.holds(row.token),
        flow.advances_to(store.answer(StoreRequestView::InsertToken { row }), done),
    ensures
        done matches IssueStep::Done(Ok(pair)) && pair.access@ == access@ && pair.refresh@
            == row.token,
        store.after(StoreRequestView::InsertToken { row }).tokens == store.tokens.push(row),
        store.after(StoreRequestView::InsertToken { row }).users == store.users,
        row.user_id == uuid_text(user.id),
        !row.revoked,
        row.expired_at == row.issued_at.plus_seconds(REFRESH_TOKEN_SECONDS),
{
}

/// Issuance with a working signer and a failing store: where the store
/// answers the first insertion with a failure that is no collision, the
/// issuance ends in `RefreshTokenGenerationFailure`, without a pair, and
/// the store is as it was.
pub proof fn failed_insertion_fails_the_issuance(
    user: UserView,
    access: String,
    begun: IssueStep,
    flow: IssueFlow,
    row: TokenRow,
    failure: StoreError,
    done: IssueStep,
)
    requires
        issue_continues(Ok(access), user, begun),
        asks_to_insert(begun, flow, row),
        failure != StoreError::UniqueViolation,
        flow.advances_to(StoreReplyView::Inserted(Err(failure)), done),
    ensures
        done matches IssueStep::Done(Err(e)) && e is RefreshTokenGenerationFailure,
{
}

/// Rotation with a working signer and a working store: let a rotation of
/// `token` pass its checks for `user`, let the store serve the revocation,
/// let the signer return `access`, and let the store hold no row with the
/// token drawn for the successor. Then the revocation goes on to the
/// issuance, and the issuance ends with a pair whose refresh token differs
/// from `token`. Afterwards the one row of `token` is revoked and
/// otherwise as it was, and the successor has its one row: of the same
/// user, not revoked, expiring [`REFRESH_TOKEN_SECONDS`] after its issue.
pub proof fn rotation_ends_with_a_pair(
    store: Store,
    token: Seq<char>,
    at: Timestamp,
    user: UserView,
    access: String,
    begun: IssueStep,
    flow: IssueFlow,
    row: TokenRow,
    done: IssueStep,
)
    requires
        rotation_check(store, token, at) == Ok::<UserView, JWTError>(user),
        issue_continues(Ok(access), user, begun),
        asks_to_insert(begun, flow, row),
        !store.holds(row.token),
        flow.advances_to(
            store.after(StoreRequestView::RevokeToken { token }).answer(
                StoreRequestView::InsertToken { row },
            ),
            done,
        ),
    ensures
        revocation_decision(store.answer(StoreRequestView::RevokeToken { token })) is Ok,
        done matches IssueStep::Done(Ok(pair)) && pair.access@ == access@ && pair.refresh@
            == row.token && pair.refresh@ != token,
        ({
            let last = store.after(StoreRequestView::RevokeToken { token }).after(
                StoreRequestView::InsertToken { row },
            );
            &&& last.rows_with(token) == seq![
                (TokenRow { revoked: true, ..store.rows_with(token)[0] }),
            ]
            &&& last.rows_with(row.token) == seq![row]
            &&& last.users == store.users
        }),
        row.user_id == uuid_text(user.id),
        !row.revoked,
        row.expired_at == row.issued_at.plus_seconds(REFRESH_TOKEN_SECONDS),
{
    let revoked = store.after(StoreRequestView::RevokeToken { token });
    let last = revoked.after(StoreRequestView::InsertToken { row });
    store.selection_holds_token(token);
    store.selection_holds_token(row.token);
    store.revocation_marks_selection(token, token);
    store.revocation_marks_selection(token, row.token);
    revoked.selection_holds_token(row.token);
    revoked.insertion_extends_selection(row, row.token);
    revoked.insertion_extends_selection(row, token);
    assert(revoked.rows_with(token) =~= seq![
        (TokenRow { revoked: true, ..store.rows_with(token)[0] }),
    ]);
}

} // verus!

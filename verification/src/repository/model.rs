//! A model of the store: the two tables as mathematical values, and what a
//! store that works answers to each request.
//!
//! The store is outside this library. What is proved of the token lifecycle
//! is proved of its working against a store that behaves as this model
//! does: a unique-constrained insert, a filtered select, a filtered update,
//! and no other change to the rows.

use vstd::prelude::*;
use crate::models::jwt::TokenRow;
use crate::models::users::UserView;
use crate::repository::jwt::{StoreError, StoreReplyView, StoreRequestView};

verus! {

/// The rows that carry `token`.
pub open spec fn has_token(token: Seq<char>) -> spec_fn(TokenRow) -> bool {
    |row: TokenRow| row.token == token
}

/// The row itself, revoked if it carries `token`.
pub open spec fn revoked_if(token: Seq<char>) -> spec_fn(TokenRow) -> TokenRow {
    |row: TokenRow|
        if row.token == token {
            TokenRow { revoked: true, ..row }
        } else {
            row
        }
}

/// The refresh-token rows in the order of their insertion, and the users by
/// their identifier.
pub ghost struct Store {
    pub tokens: Seq<TokenRow>,
    pub users: Map<u128, UserView>,
}

impl Store {
    /// The rows that carry `token`, in order.
    pub open spec fn rows_with(self, token: Seq<char>) -> Seq<TokenRow> {
        self.tokens.filter(has_token(token))
    }

    /// Some row carries `token`.
    pub open spec fn holds(self, token: Seq<char>) -> bool {
        exists|i: int| 0 <= i < self.tokens.len() && (#[trigger] self.tokens[i]).token == token
    }

    /// No two rows carry the same token.
    pub open spec fn tokens_are_unique(self) -> bool {
        forall|i: int, j: int|
            0 <= i < j < self.tokens.len() ==> (#[trigger] self.tokens[i]).token != (
            #[trigger] self.tokens[j]).token
    }

    /// The store after it has served `request`. Selections change nothing;
    /// a revocation marks every row with the token; an insertion adds the
    /// row at the end unless its token is held.
    pub open spec fn after(self, request: StoreRequestView) -> Store {
        match request {
            StoreRequestView::FindTokens { token } => self,
            StoreRequestView::FindUser { id } => self,
            StoreRequestView::RevokeToken { token } => Store {
                tokens: self.tokens.map_values(revoked_if(token)),
                ..self
            },
            StoreRequestView::InsertToken { row } => if self.holds(row.token) {
                self
            } else {
                Store { tokens: self.tokens.push(row), ..self }
            },
        }
    }

    /// What the store answers to `request`.
    pub open spec fn answer(self, request: StoreRequestView) -> StoreReplyView {
        match request {
            StoreRequestView::FindTokens { token } => StoreReplyView::Tokens(
                Ok(self.rows_with(token)),
            ),
            StoreRequestView::FindUser { id } => StoreReplyView::User(
                if self.users.dom().contains(id) {
                    Ok(self.users[id])
                } else {
                    Err(StoreError::NotFound)
                },
            ),
            StoreRequestView::RevokeToken { token } => StoreReplyView::Revoked(
                Ok(self.rows_with(token).len()),
            ),
            StoreRequestView::InsertToken { row } => StoreReplyView::Inserted(
                if self.holds(row.token) {
                    Err(StoreError::UniqueViolation)
                } else {
                    Ok(row.token)
                },
            ),
        }
    }

    /// The store after it has served `requests` one after the other.
    pub open spec fn after_all(self, requests: Seq<StoreRequestView>) -> Store
        decreases requests.len(),
    {
        if requests.len() == 0 {
            self
        } else {
            self.after_all(requests.drop_last()).after(requests.last())
        }
    }

    /// A token is held exactly if some row is selected for it, and every
    /// row selected for it carries it.
    pub proof fn selection_holds_token(self, token: Seq<char>)
        ensures
            self.holds(token) <==> self.rows_with(token).len() > 0,
            forall|i: int|
                0 <= i < self.rows_with(token).len() ==> (#[trigger] self.rows_with(
                    token,
                )[i]).token == token,
    {
        let selected = self.rows_with(token);
        #[allow(deprecated)]
        self.tokens.filter_lemma(has_token(token));
        assert forall|i: int| 0 <= i < selected.len() implies (#[trigger] selected[i]).token
            == token by {
            assert(has_token(token)(selected[i]));
        }
        if self.holds(token) {
            let i = choose|i: int|
                0 <= i < self.tokens.len() && (#[trigger] self.tokens[i]).token == token;
            assert(has_token(token)(self.tokens[i]));
            assert(selected.contains(self.tokens[i]));
        }
        if selected.len() > 0 {
            self.tokens.lemma_filter_contains_rev(has_token(token), selected[0]);
            assert(selected.contains(selected[0]));
            assert(has_token(token)(selected[0]));
            let i = choose|i: int| 0 <= i < self.tokens.len() && self.tokens[i] == selected[0];
            assert(self.tokens[i].token == token);
        }
    }

    /// Where no two rows carry the same token, at most one row is selected
    /// for any token.
    pub proof fn unique_tokens_select_one(self, token: Seq<char>)
        requires
            self.tokens_are_unique(),
        ensures
            self.rows_with(token).len() <= 1,
        decreases self.tokens.len(),
    {
        reveal(Seq::filter);
        if self.tokens.len() > 0 {
            let rest = Store { tokens: self.tokens.drop_last(), ..self };
            rest.unique_tokens_select_one(token);
            if self.tokens.last().token == token {
                if rest.rows_with(token).len() > 0 {
                    rest.selection_holds_token(token);
                    let i = choose|i: int|
                        0 <= i < rest.tokens.len() && (#[trigger] rest.tokens[i]).token == token;
                    assert(self.tokens[i].token == self.tokens[self.tokens.len() - 1].token);
                }
            }
        }
    }

    /// Two rows with the same token are both selected for it.
    pub proof fn shared_token_selects_both(self, token: Seq<char>, i: int, j: int)
        requires
            0 <= i < j < self.tokens.len(),
            self.tokens[i].token == token,
            self.tokens[j].token == token,
        ensures
            self.rows_with(token).len() >= 2,
        decreases self.tokens.len(),
    {
        reveal(Seq::filter);
        let rest = Store { tokens: self.tokens.drop_last(), ..self };
        if j == self.tokens.len() - 1 {
            assert(rest.tokens[i].token == token);
            rest.selection_holds_token(token);
        } else {
            rest.shared_token_selects_both(token, i, j);
        }
    }

    /// A revocation marks the rows selected for its token and leaves every
    /// selection otherwise as it was.
    pub proof fn revocation_marks_selection(self, revoked: Seq<char>, token: Seq<char>)
        ensures
            self.after(StoreRequestView::RevokeToken { token: revoked }).rows_with(token)
                == self.rows_with(token).map_values(revoked_if(revoked)),
        decreases self.tokens.len(),
    {
        reveal(Seq::filter);
        let marked = self.after(StoreRequestView::RevokeToken { token: revoked });
        if self.tokens.len() == 0 {
            assert(marked.tokens =~= Seq::<TokenRow>::empty());
            assert(marked.rows_with(token) =~= self.rows_with(token).map_values(
                revoked_if(revoked),
            ));
        } else {
            let rest = Store { tokens: self.tokens.drop_last(), ..self };
            rest.revocation_marks_selection(revoked, token);
            let rest_marked = rest.after(StoreRequestView::RevokeToken { token: revoked });
            assert(marked.tokens.drop_last() =~= rest_marked.tokens);
            assert(marked.tokens.last() == revoked_if(revoked)(self.tokens.last()));
            assert(marked.rows_with(token) =~= self.rows_with(token).map_values(
                revoked_if(revoked),
            ));
        }
    }

    /// An insertion that the store accepts adds its row to the selection
    /// for its token and to no other.
    pub proof fn insertion_extends_selection(self, row: TokenRow, token: Seq<char>)
        requires
            !self.holds(row.token),
        ensures
            self.after(StoreRequestView::InsertToken { row }).rows_with(token) == if row.token
                == token {
                seq![row]
            } else {
                self.rows_with(token)
            },
    {
        self.tokens.lemma_filter_push(row, has_token(token));
        if row.token == token {
            self.selection_holds_token(token);
            assert(self.rows_with(token).push(row) =~= seq![row]);
        }
    }

    /// No request makes two rows carry the same token.
    pub proof fn requests_keep_tokens_unique(self, request: StoreRequestView)
        requires
            self.tokens_are_unique(),
        ensures
            self.after(request).tokens_are_unique(),
    {
    }

    /// No request removes a row, changes what a row holds besides its mark,
    /// takes the mark off a revoked row, or touches the users.
    pub proof fn requests_only_add_and_revoke(self, request: StoreRequestView, i: int)
        requires
            0 <= i < self.tokens.len(),
        ensures
            self.after(request).users == self.users,
            self.after(request).tokens.len() >= self.tokens.len(),
            self.after(request).tokens[i] == self.tokens[i] || self.after(request).tokens[i] == (
            TokenRow { revoked: true, ..self.tokens[i] }),
    {
    }
}

} // verus!

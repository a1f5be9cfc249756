//! Refresh-token rows.

use vstd::prelude::*;
use crate::clock::Timestamp;

verus! {

/// A refresh-token row as specifications see it.
pub ghost struct TokenRow {
    pub token: Seq<char>,
    pub user_id: Seq<char>,
    pub issued_at: Timestamp,
    pub expired_at: Timestamp,
    pub revoked: bool,
}

/// A refresh-token row about to be inserted. It is never inserted revoked.
#[derive(Clone, Debug, PartialEq, Eq)]
pub struct RefreshTokenCreationDTO {
    pub token_str: String,
    pub user_id: String,
    pub issued_at: Timestamp,
    pub expired_at: Timestamp,
}

/// A refresh-token row as the store returns it.
#[derive(Clone, Debug, PartialEq, Eq)]
pub struct RefreshTokenDTO {
    pub token: String,
    pub user_id: String,
    pub issued_at: Timestamp,
    pub expired_at: Timestamp,
    pub revoked: bool,
}

impl View for RefreshTokenCreationDTO {
    type V = TokenRow;

    open spec fn view(&self) -> TokenRow {
        TokenRow {
            token: self.token_str@,
            user_id: self.user_id@,
            issued_at: self.issued_at,
            expired_at: self.expired_at,
            revoked: false,
        }
    }
}

impl View for RefreshTokenDTO {
    type V = TokenRow;

    open spec fn view(&self) -> TokenRow {
        TokenRow {
            token: self.token@,
            user_id: self.user_id@,
            issued_at: self.issued_at,
            expired_at: self.expired_at,
            revoked: self.revoked,
        }
    }
}

impl DeepView for RefreshTokenDTO {
    type V = TokenRow;

    open spec fn deep_view(&self) -> TokenRow {
        self@
    }
}

} // verus!

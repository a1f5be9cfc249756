//! Issuing, rotating and revoking tokens.

pub mod claims;
pub mod issue;
pub mod refresh;
pub mod signing;

pub use claims::{Claims, Jwt, RefreshInfo, RegisteredClaims, RevocationInfo};
pub use issue::generate_jwt;
pub use refresh::refresh_token;

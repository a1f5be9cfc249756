//! The operations of the token lifecycle.

pub mod jwt;
pub mod users;

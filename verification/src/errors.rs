//! The failures that the token lifecycle reports.

pub mod jwt;
pub mod users;

//! The rows of the two tables that the token lifecycle touches.

pub mod jwt;
pub mod users;

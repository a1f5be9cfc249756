//! The refresh-token store: what is asked of it, what it answers, and what
//! those answers mean.

pub mod jwt;
pub mod model;

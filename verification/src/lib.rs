//! Token lifecycle for an authentication service: short-lived signed access
//! tokens, long-lived opaque refresh tokens, and the rules by which a refresh
//! token is created, rotated and revoked.
//!
//! The relational store is not reached from here. Every operation that needs
//! it is a small state machine: it hands out a [`repository::jwt::StoreRequest`],
//! the caller runs it against the store and hands back the
//! [`repository::jwt::StoreReply`]. What a store that works answers is
//! modelled in [`repository::model`], and the guarantees of the lifecycle
//! are proved over that model in [`lifecycle`].
//!
//! Time, randomness, UUIDs, signatures and password hashes come from other
//! crates. Each call into them stands behind one small item whose contract
//! is believed, not proved; its documentation says what is believed.

pub mod clock;
pub mod errors;
pub mod identifiers;
pub mod json;
pub mod lifecycle;
pub mod models;
pub mod repository;
pub mod services;

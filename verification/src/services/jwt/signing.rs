//! Signing backends: each turns a claim set into a compact signed token.

use vstd::prelude::*;
use crate::errors::jwt::JWTCreationError;
use crate::services::jwt::claims::{claims_json, Claims, ClaimsView};

pub mod es256;
pub mod hs256;
pub mod rs256;

verus! {

/// `jsonwebtoken::EncodingKey`: the key material of a signer, carried
/// through and never looked into.
#[verifier::external_type_specification]
#[verifier::external_body]
pub struct ExEncodingKey(jsonwebtoken::EncodingKey);

/// `jsonwebtoken::errors::Error`: why a key was refused or a token could
/// not be encoded. Only its presence is read.
#[verifier::external_type_specification]
#[verifier::external_body]
pub struct ExEncodingError(jsonwebtoken::errors::Error);

/// The signature algorithms on offer.
#[derive(Clone, Copy, Debug, PartialEq, Eq, Structural)]
pub enum SigningAlgorithm {
    /// HMAC with SHA-256, keyed by a shared secret.
    HS256,
    /// RSA PKCS#1 v1.5 with SHA-256.
    RS256,
    /// ECDSA over P-256 with SHA-256.
    ES256,
}

/// What `jsonwebtoken::encode` signs for a header of type `JWT` with the
/// given algorithm and key identifier and for the given JSON payload: the
/// two encoded segments with the dot between them.
pub uninterp spec fn signing_input(
    algorithm: SigningAlgorithm,
    key_id: Option<Seq<char>>,
    payload: Seq<char>,
) -> Seq<char>;

/// `token` is `input`, a dot, and a signature segment.
pub open spec fn is_signed_form(token: Seq<char>, input: Seq<char>) -> bool {
    &&& token.len() > input.len()
    &&& token.subrange(0, input.len() as int) == input
    &&& token[input.len() as int] == '.'
}

/// What a signer returns for what the encoder returned: the token, or
/// `TokenEncodingFailure` whatever the encoder's reason.
pub fn signed_token(encoded: Result<String, jsonwebtoken::errors::Error>) -> (signed: Result<
    String,
    JWTCreationError,
>)
    ensures
        match encoded {
            Ok(token) => signed == Ok::<String, JWTCreationError>(token),
            Err(_) => signed == Err::<String, JWTCreationError>(
                JWTCreationError::TokenEncodingFailure,
            ),
        },
{
    match encoded {
        Ok(token) => Ok(token),
        Err(_) => Err(JWTCreationError::TokenEncodingFailure),
    }
}

/// What a signer owes for a claim set, given its algorithm, the key
/// identifier it puts in the header (or the reason it has none to put), and
/// what its key fixes for the payload, where it fixes anything.
///
/// Without a key identifier to put, the signer fails with
/// `InvalidTokenData` and the reason. Otherwise a token is the signing
/// input, a dot and a signature, and a failure is `TokenEncodingFailure`.
/// Where key and payload fix the outcome, the signer returns exactly that:
/// the token that they fix, and a failure only where they fix none.
pub open spec fn sign_outcome(
    algorithm: SigningAlgorithm,
    key_id: Result<Option<Seq<char>>, Seq<char>>,
    fixed: Option<Option<Seq<char>>>,
    claims: ClaimsView,
    signed: Result<String, JWTCreationError>,
) -> bool {
    match key_id {
        Err(why) => signed matches Err(JWTCreationError::InvalidTokenData(text)) && text@ == why,
        Ok(id) => match signed {
            Ok(token) => {
                &&& is_signed_form(token@, signing_input(algorithm, id, claims_json(claims)))
                &&& fixed matches Some(outcome) ==> outcome == Some(token@)
            },
            Err(e) => {
                &&& e is TokenEncodingFailure
                &&& fixed matches Some(outcome) ==> outcome is None
            },
        },
    }
}

/// A signing backend. It is fixed at construction and only read afterwards.
pub trait TokenSigner {
    /// The algorithm named in the header of every token of this signer.
    spec fn algorithm(&self) -> SigningAlgorithm;

    /// The key identifier in the header of every token of this signer:
    /// none, one, or the reason why none can be had.
    spec fn key_id(&self) -> Result<Option<Seq<char>>, Seq<char>>;

    /// What signing `payload` gives, where the signer's key and the payload
    /// fix it: the token, or none where the encoding fails. `None` where
    /// the signature is drawn anew at every signing.
    spec fn fixed_token(&self, payload: Seq<char>) -> Option<Option<Seq<char>>>;

    /// Signs the JSON payload of `claims`.
    fn sign(&self, claims: &Claims) -> (signed: Result<String, JWTCreationError>)
        ensures
            sign_outcome(
                self.algorithm(),
                self.key_id(),
                self.fixed_token(claims_json(claims@)),
                claims@,
                signed,
            ),
    ;
}

} // verus!

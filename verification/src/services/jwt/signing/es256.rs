//! ECDSA over P-256 with SHA-256, keyed by a PEM-encoded private key.

use vstd::prelude::*;
use crate::errors::jwt::JWTCreationError;
use crate::services::jwt::claims::Claims;
use crate::services::jwt::signing::{
    is_signed_form, signed_token, signing_input, SigningAlgorithm, TokenSigner,
};

verus! {

/// `jsonwebtoken::EncodingKey::from_ec_pem` accepts `key`.
pub uninterp spec fn is_ec_private_key_pem(key: Seq<u8>) -> bool;

/// `jsonwebtoken::EncodingKey::from_ec_pem`, which reads an EC private key
/// in PKCS#8 form out of PEM.
///
/// Trusted: whether it accepts is a function of the bytes alone.
pub assume_specification[ jsonwebtoken::EncodingKey::from_ec_pem ](key: &[u8]) -> (parsed: Result<
    jsonwebtoken::EncodingKey,
    jsonwebtoken::errors::Error,
>)
    ensures
        parsed is Ok <==> is_ec_private_key_pem(key@),
;

/// Signs the payload with the key under an `ES256` header with
/// `jsonwebtoken::encode`.
///
/// Trusted: a token that comes back is the signing input, a dot and the
/// signature. The signature is drawn anew at every call, and whether a
/// token comes back is up to the key.
#[verifier::external_body]
pub(crate) fn encode_es256(key: &jsonwebtoken::EncodingKey, payload: String) -> (encoded: Result<
    String,
    jsonwebtoken::errors::Error,
>)
    ensures
        encoded matches Ok(token) ==> is_signed_form(
            token@,
            signing_input(SigningAlgorithm::ES256, None, payload@),
        ),
{
    let header = jsonwebtoken::Header::new(jsonwebtoken::Algorithm::ES256);
    let claims = serde_json::value::RawValue::from_string(payload)?;
    jsonwebtoken::encode(&header, &claims, key)
}

/// Signs with ECDSA-P256-SHA256.
pub struct ES256Signer {
    signing_key: jsonwebtoken::EncodingKey,
}

impl ES256Signer {
    /// A signer keyed by the contents of a private-key file: `None` where
    /// the file could not be read, which is refused with
    /// `PrivateKeyNotFound`. Contents that are no EC private key in PEM are
    /// refused with `InvalidPrivateKey`.
    pub fn new(key_file: Option<Vec<u8>>) -> (signer: Result<Self, JWTCreationError>)
        ensures
            match key_file {
                None => signer matches Err(e) && e is PrivateKeyNotFound,
                Some(pem) => if is_ec_private_key_pem(pem@) {
                    signer is Ok
                } else {
                    signer matches Err(e) && e is InvalidPrivateKey
                },
            },
    {
        match key_file {
            None => Err(JWTCreationError::PrivateKeyNotFound),
            Some(pem) => match jsonwebtoken::EncodingKey::from_ec_pem(pem.as_slice()) {
                Ok(signing_key) => Ok(ES256Signer { signing_key }),
                Err(_) => Err(JWTCreationError::InvalidPrivateKey),
            },
        }
    }
}

impl TokenSigner for ES256Signer {
    open spec fn algorithm(&self) -> SigningAlgorithm {
        SigningAlgorithm::ES256
    }

    open spec fn key_id(&self) -> Result<Option<Seq<char>>, Seq<char>> {
        Ok(None)
    }

    open spec fn fixed_token(&self, payload: Seq<char>) -> Option<Option<Seq<char>>> {
        None
    }

    fn sign(&self, claims: &Claims) -> (signed: Result<String, JWTCreationError>) {
        signed_token(encode_es256(&self.signing_key, claims.to_json()))
    }
}

} // verus!

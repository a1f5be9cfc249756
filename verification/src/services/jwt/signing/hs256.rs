//! HMAC-SHA256, keyed by a shared secret.

use vstd::prelude::*;
use vstd::string::StringExecFns;
use crate::errors::jwt::JWTCreationError;
use crate::services::jwt::claims::Claims;
use crate::services::jwt::signing::{
    is_signed_form, signed_token, signing_input, SigningAlgorithm, TokenSigner,
};

verus! {

/// `text` without its leading and trailing whitespace, as `str::trim`
/// returns it.
pub uninterp spec fn trimmed(text: Seq<char>) -> Seq<char>;

/// `jsonwebtoken::EncodingKey::from_base64_secret` accepts `secret`.
pub uninterp spec fn is_base64_secret(secret: Seq<char>) -> bool;

/// The token that `jsonwebtoken::encode` returns for the JSON `payload`
/// under a header of type `JWT` and algorithm `HS256`, signed with the key
/// that `secret` encodes in base64; none where the secret is no base64,
/// the payload no JSON, or the encoding fails.
pub uninterp spec fn hs256_token(secret: Seq<char>, payload: Seq<char>) -> Option<Seq<char>>;

/// `str::trim` of the standard library.
///
/// Trusted: what it returns is a function of the text alone.
pub assume_specification[ str::trim ](text: &str) -> (inner: &str)
    ensures
        inner@ == trimmed(text@),
;

/// `jsonwebtoken::EncodingKey::from_base64_secret`, which decodes a shared
/// secret from standard base64.
///
/// Trusted: whether it accepts is a function of the text alone.
pub assume_specification[ jsonwebtoken::EncodingKey::from_base64_secret ](secret: &str) -> (key:
    Result<jsonwebtoken::EncodingKey, jsonwebtoken::errors::Error>)
    ensures
        key is Ok <==> is_base64_secret(secret@),
;

/// Makes the key from the secret and signs the payload under an `HS256`
/// header with `jsonwebtoken::encode`.
///
/// Trusted: the outcome is a function of secret and payload alone, an
/// HMAC being computed from nothing else; and a token that comes back is
/// the signing input, a dot and the signature.
#[verifier::external_body]
pub(crate) fn encode_hs256(secret: &str, payload: String) -> (encoded: Result<
    String,
    jsonwebtoken::errors::Error,
>)
    ensures
        match encoded {
            Ok(token) => {
                &&& hs256_token(secret@, payload@) == Some(token@)
                &&& is_signed_form(
                    token@,
                    signing_input(SigningAlgorithm::HS256, None, payload@),
                )
            },
            Err(_) => hs256_token(secret@, payload@) is None,
        },
{
    let key = jsonwebtoken::EncodingKey::from_base64_secret(secret)?;
    let header = jsonwebtoken::Header::new(jsonwebtoken::Algorithm::HS256);
    let claims = serde_json::value::RawValue::from_string(payload)?;
    jsonwebtoken::encode(&header, &claims, &key)
}

/// Signs with HMAC-SHA256.
pub struct HS256Signer {
    secret: String,
}

impl HS256Signer {
    /// The shared secret of this signer, in base64.
    pub closed spec fn secret(&self) -> Seq<char> {
        self.secret@
    }

    /// A signer keyed by the secret that `base64_key` encodes; whitespace
    /// around the text is ignored. Text that is not base64 is refused with
    /// `InvalidPrivateKey`.
    pub fn new(base64_key: &str) -> (signer: Result<Self, JWTCreationError>)
        ensures
            signer is Ok <==> is_base64_secret(trimmed(base64_key@)),
            signer matches Ok(s) ==> s.secret() == trimmed(base64_key@),
            signer matches Err(e) ==> e is InvalidPrivateKey,
    {
        let secret = base64_key.trim();
        match jsonwebtoken::EncodingKey::from_base64_secret(secret) {
            Ok(_) => Ok(HS256Signer { secret: String::from_str(secret) }),
            Err(_) => Err(JWTCreationError::InvalidPrivateKey),
        }
    }
}

impl TokenSigner for HS256Signer {
    open spec fn algorithm(&self) -> SigningAlgorithm {
        SigningAlgorithm::HS256
    }

    open spec fn key_id(&self) -> Result<Option<Seq<char>>, Seq<char>> {
        Ok(None)
    }

    open spec fn fixed_token(&self, payload: Seq<char>) -> Option<Option<Seq<char>>> {
        Some(hs256_token(self.secret(), payload))
    }

    fn sign(&self, claims: &Claims) -> (signed: Result<String, JWTCreationError>) {
        signed_token(encode_hs256(self.secret.as_str(), claims.to_json()))
    }
}

} // verus!

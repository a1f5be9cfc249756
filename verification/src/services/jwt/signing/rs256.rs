//! RSA-SHA256, keyed by a PEM-encoded private key, with an optional key
//! identifier from a published key set.

use vstd::prelude::*;
use vstd::string::{StringExecFns, StringSliceAdditionalSpecFns};
use crate::errors::jwt::JWTCreationError;
use crate::services::jwt::claims::Claims;
use crate::services::jwt::signing::{
    is_signed_form, signed_token, signing_input, SigningAlgorithm, TokenSigner,
};

verus! {

/// `jsonwebtoken::EncodingKey::from_rsa_pem` accepts `key`: it is the PEM
/// of an RSA key in PKCS#1 or PKCS#8 form. That reader takes a public key
/// as well as a private one.
pub uninterp spec fn is_rsa_key_pem(key: Seq<u8>) -> bool;

/// The token that `jsonwebtoken::encode` returns for the JSON `payload`
/// under a header of type `JWT`, algorithm `RS256` and the given key
/// identifier, signed with the RSA key that `pem` holds; none where the
/// text holds no key to sign with, the payload is no JSON, or the encoding
/// fails.
pub uninterp spec fn rs256_token(
    pem: Seq<char>,
    key_id: Option<Seq<char>>,
    payload: Seq<char>,
) -> Option<Seq<char>>;

/// What `serde_json` reads out of `text` as a `jsonwebtoken` key set: the
/// key identifier of each key in order, absent where a key has none; or the
/// parser's message where the text is no key set.
pub uninterp spec fn key_set_ids(text: Seq<char>) -> Result<Seq<Option<Seq<char>>>, Seq<char>>;

/// `jsonwebtoken::EncodingKey::from_rsa_pem`, which reads an RSA key out
/// of PEM.
///
/// Trusted: whether it accepts is a function of the bytes alone.
pub assume_specification[ jsonwebtoken::EncodingKey::from_rsa_pem ](key: &[u8]) -> (parsed: Result<
    jsonwebtoken::EncodingKey,
    jsonwebtoken::errors::Error,
>)
    ensures
        parsed is Ok <==> is_rsa_key_pem(key@),
;

/// Makes the key from the PEM text and signs the payload under an `RS256`
/// header with that key identifier, with `jsonwebtoken::encode`.
///
/// Trusted: the outcome is a function of PEM text, key identifier and
/// payload alone, the PKCS#1 v1.5 signature being computed from nothing
/// else; and a token that comes back is the signing input, a dot and the
/// signature.
#[verifier::external_body]
pub(crate) fn encode_rs256(pem: &str, key_id: Option<String>, payload: String) -> (encoded:
    Result<String, jsonwebtoken::errors::Error>)
    ensures
        match encoded {
            Ok(token) => {
                &&& rs256_token(pem@, key_id.deep_view(), payload@) == Some(token@)
                &&& is_signed_form(
                    token@,
                    signing_input(SigningAlgorithm::RS256, key_id.deep_view(), payload@),
                )
            },
            Err(_) => rs256_token(pem@, key_id.deep_view(), payload@) is None,
        },
{
    let key = jsonwebtoken::EncodingKey::from_rsa_pem(pem.as_bytes())?;
    let mut header = jsonwebtoken::Header::new(jsonwebtoken::Algorithm::RS256);
    header.kid = key_id;
    let claims = serde_json::value::RawValue::from_string(payload)?;
    jsonwebtoken::encode(&header, &claims, &key)
}

/// Parses a published key set with `serde_json::from_str` and hands out
/// the key identifiers.
///
/// Trusted: the outcome is a function of the text alone.
#[verifier::external_body]
pub(crate) fn parse_key_set(text: &str) -> (parsed: Result<Vec<Option<String>>, String>)
    ensures
        match parsed {
            Ok(ids) => key_set_ids(text@) == Ok::<Seq<Option<Seq<char>>>, Seq<char>>(
                ids.deep_view(),
            ),
            Err(why) => key_set_ids(text@) == Err::<Seq<Option<Seq<char>>>, Seq<char>>(why@),
        },
{
    match serde_json::from_str::<jsonwebtoken::jwk::JwkSet>(text) {
        Ok(set) => Ok(set.keys.into_iter().map(|key| key.common.key_id).collect()),
        Err(error) => Err(error.to_string()),
    }
}

/// Where the published key set comes from.
#[derive(Clone, Debug, PartialEq, Eq)]
pub enum KeySetSource {
    /// The key set could not be read; the text says why.
    Unreadable(String),
    /// The JSON text of the key set.
    Published(String),
}

/// The key identifier that a parsed key set supplies: that of its first
/// key. An unparsable set, an empty set and a first key without identifier
/// each supply none, with the reason.
pub open spec fn first_key_id_of(parsed: Result<Seq<Option<Seq<char>>>, Seq<char>>) -> Result<
    Seq<char>,
    Seq<char>,
> {
    match parsed {
        Err(why) => Err(why),
        Ok(ids) => if ids.len() == 0 {
            Err("JWK not found"@)
        } else {
            match ids[0] {
                None => Err("JWK doesn't have a key ID"@),
                Some(id) => Ok(id),
            }
        },
    }
}

/// A parsed key set as specifications see it.
pub open spec fn parsed_ids(parsed: Result<Vec<Option<String>>, String>) -> Result<
    Seq<Option<Seq<char>>>,
    Seq<char>,
> {
    match parsed {
        Ok(ids) => Ok(ids.deep_view()),
        Err(why) => Err(why@),
    }
}

/// Picks the key identifier out of a parsed key set.
pub fn first_key_id(parsed: Result<Vec<Option<String>>, String>) -> (id: Result<
    String,
    JWTCreationError,
>)
    ensures
        match first_key_id_of(parsed_ids(parsed)) {
            Ok(found) => id matches Ok(text) && text@ == found,
            Err(why) => id matches Err(JWTCreationError::InvalidTokenData(text)) && text@ == why,
        },
{
    match parsed {
        Err(why) => Err(JWTCreationError::InvalidTokenData(why)),
        Ok(ids) => {
            if ids.len() == 0 {
                Err(JWTCreationError::InvalidTokenData(String::from_str("JWK not found")))
            } else {
                match &ids[0] {
                    None => Err(
                        JWTCreationError::InvalidTokenData(
                            String::from_str("JWK doesn't have a key ID"),
                        ),
                    ),
                    Some(id) => Ok(id.clone()),
                }
            }
        },
    }
}

impl KeySetSource {
    /// The key identifier that this source supplies, or the reason why it
    /// supplies none.
    pub open spec fn supplies(&self) -> Result<Seq<char>, Seq<char>> {
        match self {
            KeySetSource::Unreadable(why) => Err(why@),
            KeySetSource::Published(text) => first_key_id_of(key_set_ids(text@)),
        }
    }

    /// Reads the key identifier out of the source.
    pub fn key_id(&self) -> (id: Result<String, JWTCreationError>)
        ensures
            match self.supplies() {
                Ok(found) => id matches Ok(text) && text@ == found,
                Err(why) => id matches Err(JWTCreationError::InvalidTokenData(text)) && text@
                    == why,
            },
    {
        match self {
            KeySetSource::Unreadable(why) => Err(JWTCreationError::InvalidTokenData(why.clone())),
            KeySetSource::Published(text) => first_key_id(parse_key_set(text.as_str())),
        }
    }
}

/// Signs with RSA-SHA256.
pub struct RS256Signer {
    secret_key: String,
    key_set: Option<KeySetSource>,
}

impl RS256Signer {
    /// The PEM text of this signer's key.
    pub closed spec fn pem(&self) -> Seq<char> {
        self.secret_key@
    }

    /// The published key set that this signer draws its key identifier
    /// from, if it draws one.
    pub closed spec fn key_set(&self) -> Option<KeySetSource> {
        self.key_set
    }

    /// A signer keyed by the PEM-encoded RSA key in `secret_key`, which
    /// puts no key identifier in its headers. Text that is no RSA key in
    /// PKCS#1 or PKCS#8 form is refused with `InvalidPrivateKey`. A public
    /// key is not refused here: a signer keyed by one fails at every
    /// signing with `TokenEncodingFailure`.
    pub fn new(secret_key: &str) -> (signer: Result<Self, JWTCreationError>)
        ensures
            signer is Ok <==> is_rsa_key_pem(secret_key.spec_bytes()),
            signer matches Ok(s) ==> s.pem() == secret_key@ && s.key_set() is None,
            signer matches Err(e) ==> e is InvalidPrivateKey,
    {
        match jsonwebtoken::EncodingKey::from_rsa_pem(secret_key.as_bytes()) {
            Ok(_) => Ok(RS256Signer { secret_key: String::from_str(secret_key), key_set: None }),
            Err(_) => Err(JWTCreationError::InvalidPrivateKey),
        }
    }

    /// The same signer, which from now on names in every header the first
    /// key of the published key set.
    pub fn with_key_set(self, source: KeySetSource) -> (signer: Self)
        ensures
            signer.pem() == self.pem(),
            signer.key_set() == Some(source),
    {
        RS256Signer { secret_key: self.secret_key, key_set: Some(source) }
    }
}

impl TokenSigner for RS256Signer {
    open spec fn algorithm(&self) -> SigningAlgorithm {
        SigningAlgorithm::RS256
    }

    open spec fn key_id(&self) -> Result<Option<Seq<char>>, Seq<char>> {
        match self.key_set() {
            None => Ok(None),
            Some(source) => match source.supplies() {
                Ok(id) => Ok(Some(id)),
                Err(why) => Err(why),
            },
        }
    }

    open spec fn fixed_token(&self, payload: Seq<char>) -> Option<Option<Seq<char>>> {
        match self.key_id() {
            Ok(id) => Some(rs256_token(self.pem(), id, payload)),
            Err(_) => None,
        }
    }

    fn sign(&self, claims: &Claims) -> (signed: Result<String, JWTCreationError>) {
        let key_id: Option<String> = match &self.key_set {
            None => None,
            Some(source) => match source.key_id() {
                Ok(id) => Some(id),
                Err(e) => {
                    return Err(e);
                },
            },
        };
        signed_token(encode_rs256(self.secret_key.as_str(), key_id, claims.to_json()))
    }
}

} // verus!

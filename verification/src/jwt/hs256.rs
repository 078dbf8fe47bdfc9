//! HS256: signing and checking of claims by the `hmac`, `sha2` and `jwt`
//! crates. What this file says of those crates is trusted, not proved.
use super::error::TokenError;
use hmac::{Hmac, Mac};
use jwt::{SignWithKey, VerifyWithKey};
use serde_json::value::RawValue;
use sha2::Sha256;
use vstd::prelude::*;
use vstd::string::StrSliceExecFns;
use vstd::utf8::encode_utf8;

verus! {

#[verifier::external_type_specification]
#[verifier::external_body]
pub struct ExInvalidLength(hmac::digest::InvalidLength);

#[verifier::external_type_specification]
#[verifier::external_body]
pub struct ExJwtError(jwt::Error);

/// The token that `jwt` mints for a claims text under a secret, if it mints
/// one: none where the claims are no JSON value.
pub uninterp spec fn hs256_token(secret: Seq<u8>, claims: Seq<char>) -> Option<Seq<char>>;

/// The claims text that `jwt` hands out for a token whose signature it has
/// checked under a secret; none where it refuses the token.
pub uninterp spec fn hs256_claims(secret: Seq<u8>, token: Seq<char>) -> Option<Seq<char>>;

/// The key that a secret seeds: an empty secret seeds none, every other
/// one seeds the key of its bytes.
pub open spec fn key_of(secret: Seq<char>) -> Result<Seq<u8>, TokenError> {
    if secret.len() == 0 {
        Err(TokenError::KeyCreationError)
    } else {
        Ok(encode_utf8(secret))
    }
}

/// The bytes that seed the MAC.
pub struct SigningKey {
    secret: Vec<u8>,
}

impl View for SigningKey {
    type V = Seq<u8>;

    closed spec fn view(&self) -> Seq<u8> {
        self.secret@
    }
}

/// Calls `Hmac::<Sha256>::new_from_slice` and drops the MAC. Trusted: the
/// call succeeds, because HMAC takes a key of any length.
#[verifier::external_body]
fn seed_mac(secret: &[u8]) -> (r: Result<(), hmac::digest::InvalidLength>)
    ensures
        r is Ok,
{
    Hmac::<Sha256>::new_from_slice(secret).map(|_| ())
}

impl SigningKey {
    /// The key that `secret` seeds. An empty secret is refused before the
    /// MAC is asked, which takes a key of any length.
    pub fn derive(secret: &str) -> (r: Result<SigningKey, TokenError>)
        ensures
            match key_of(secret@) {
                Ok(bytes) => r matches Ok(key) && key@ == bytes,
                Err(e) => r matches Err(err) && err == e,
            },
    {
        if secret.is_empty() {
            return Err(TokenError::KeyCreationError);
        }
        let bytes = secret.as_bytes_vec();
        match seed_mac(bytes.as_slice()) {
            Ok(()) => Ok(SigningKey { secret: bytes }),
            Err(_) => Err(TokenError::KeyCreationError),
        }
    }
}

/// Calls `sign_with_key` of `jwt` on the claims text, which travels as raw
/// JSON, with the HMAC-SHA256 of the key. Trusted: whether a token is
/// minted, and which, is a function of the key's bytes and the claims; and
/// `verify_with_key` under the same key hands the claims of that token out
/// again. The claims text stands between braces, so that `serde_json` keeps
/// it letter for letter.
#[verifier::external_body]
pub(crate) fn sign(key: &SigningKey, claims: &str) -> (r: Result<String, jwt::Error>)
    requires
        claims@.len() >= 2,
        claims@.first() == '{',
        claims@.last() == '}',
    ensures
        r matches Ok(token) ==> hs256_token(key@, claims@) == Some(token@),
        r matches Ok(token) ==> hs256_claims(key@, token@) == Some(claims@),
        r is Err ==> hs256_token(key@, claims@) is None,
{
    let mac: Hmac<Sha256> = Hmac::new_from_slice(&key.secret)?;
    let raw = RawValue::from_string(claims.to_owned())?;
    raw.sign_with_key(&mac)
}

/// Calls `verify_with_key` of `jwt` on the token, with the HMAC-SHA256 of
/// the key, and hands out the claims as raw JSON. Trusted: whether the token
/// is accepted, and with which claims, is a function of the key's bytes and
/// the token.
#[verifier::external_body]
pub(crate) fn verify(key: &SigningKey, token: &str) -> (r: Result<String, jwt::Error>)
    ensures
        r matches Ok(claims) ==> hs256_claims(key@, token@) == Some(claims@),
        r is Err ==> hs256_claims(key@, token@) is None,
{
    let mac: Hmac<Sha256> = Hmac::new_from_slice(&key.secret)?;
    let raw: Box<RawValue> = token.verify_with_key(&mac)?;
    Ok(raw.get().to_owned())
}

} // verus!

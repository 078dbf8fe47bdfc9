//! Tokens: claims, signed, as the opaque text that a client presents.
use super::claim::{claim_json, claim_read, issued, verified, Claim};
use super::clock::unix_now;
use super::config::{JwtConfig, JwtConfigView};
use super::error::TokenError;
use super::hs256::{hs256_claims, hs256_token, key_of, sign, verify, SigningKey};
use super::payload::Payload;
use crate::decimal::read_count;
use crate::text::{after, chars_of, stands_at};
use std::marker::PhantomData;
use vstd::prelude::*;
use vstd::string::StrSliceExecFns;
use vstd::utf8::encode_utf8;

verus! {

/// A signed claim with a payload of shape `T`, as text. The text says
/// nothing of `T`: that a token is read as the shape it was minted for is
/// the caller's part.
#[derive(Debug, PartialEq, Eq)]
pub struct Token<T> {
    text: String,
    shape: PhantomData<T>,
}

impl<T> View for Token<T> {
    type V = Seq<char>;

    closed spec fn view(&self) -> Seq<char> {
        self.text@
    }
}

/// The text of an optional string slice.
pub open spec fn header_text(header: Option<&str>) -> Option<Seq<char>> {
    match header {
        Some(value) => Some(value@),
        None => None,
    }
}

/// The token that an `Authorization` header carries: what follows
/// `Bearer ` in it.
pub open spec fn bearer(header: Option<Seq<char>>) -> Result<Seq<char>, TokenError> {
    match header {
        None => Err(TokenError::NoAuthHeader),
        Some(value) => match after(value, "Bearer "@) {
            Some(token) => Ok(token),
            None => Err(TokenError::MalformedAuthHeader),
        },
    }
}

/// The signing key of a configuration: that of its secret. A secret that
/// is not set is not found; one that is empty cannot seed the MAC.
pub open spec fn signing_key(config: JwtConfigView) -> Result<Seq<u8>, TokenError> {
    match config.secret {
        None => Err(TokenError::SecretNotFound),
        Some(secret) => key_of(secret),
    }
}

/// The token that is minted at `now` for a payload: its claim, written as
/// JSON and signed under the configured secret.
pub open spec fn encoded<T: Payload>(data: T::V, config: JwtConfigView, now: int) -> Result<
    Seq<char>,
    TokenError,
> {
    match signing_key(config) {
        Err(e) => Err(e),
        Ok(key) => match issued(data, config.expire_secs, now) {
            Err(e) => Err(e),
            Ok(claim) => match hs256_token(key, claim_json::<T>(claim)) {
                Some(token) => Ok(token),
                None => Err(TokenError::JwtError),
            },
        },
    }
}

/// What a token yields at `now`: the payload of its claim, where the
/// signature stands under the configured secret, the claims read as a claim
/// of shape `T`, and the claim has not expired.
pub open spec fn decoded<T: Payload>(token: Seq<char>, config: JwtConfigView, now: int) -> Result<
    T::V,
    TokenError,
> {
    match signing_key(config) {
        Err(e) => Err(e),
        Ok(key) => match hs256_claims(key, token) {
            None => Err(TokenError::JwtError),
            Some(claims) => match claim_read::<T>(claims) {
                None => Err(TokenError::JwtError),
                Some(claim) => verified(claim, now),
            },
        },
    }
}

/// Round trip and expiry. A token of which `decoded` agrees with `verified`
/// on the claim that was issued for it, as `encode_at` promises of each
/// token it mints, yields its payload unchanged at every time up to the end
/// of the validity window, and `TokenExpired` at every time after it, never
/// an error of the signature.
pub proof fn lemma_token_window<T: Payload>(
    token: Seq<char>,
    data: T::V,
    config: JwtConfigView,
    window: i64,
    now: int,
    later: int,
)
    requires
        config.expire_secs matches Some(text) && read_count(text) == Some(window),
        issued(data, config.expire_secs, now) matches Ok(claim) && decoded::<T>(
            token,
            config,
            later,
        ) == verified(claim, later),
    ensures
        later <= now + window ==> decoded::<T>(token, config, later) == Ok::<T::V, TokenError>(
            data,
        ),
        later > now + window ==> decoded::<T>(token, config, later) == Err::<T::V, TokenError>(
            TokenError::TokenExpired,
        ),
{
}

impl<T: Payload> Token<T> {
    /// The token as the client presents it.
    pub fn as_str(&self) -> (text: &str)
        ensures
            text@ == self@,
    {
        self.text.as_str()
    }

    /// Takes the token out of the value of an `Authorization` header.
    pub fn from_header(header: Option<&str>) -> (r: Result<Self, TokenError>)
        ensures
            match bearer(header_text(header)) {
                Ok(token) => r matches Ok(t) && t@ == token,
                Err(e) => r matches Err(err) && err == e,
            },
    {
        match header {
            None => Err(TokenError::NoAuthHeader),
            Some(value) => {
                let chars = chars_of(value);
                let lead = chars_of("Bearer ");
                proof {
                    assert(chars@.skip(0) =~= value@);
                }
                if stands_at(chars.as_slice(), 0, lead.as_slice()) {
                    let token = value.substring_char(lead.len(), chars.len());
                    Ok(Token { text: token.to_owned(), shape: PhantomData })
                } else {
                    Err(TokenError::MalformedAuthHeader)
                }
            },
        }
    }

    /// Derives the signing key from the configured secret: `SecretNotFound`
    /// where none is set, `KeyCreationError` where it is empty, and the key
    /// of its bytes otherwise.
    pub fn get_key(config: &JwtConfig) -> (r: Result<SigningKey, TokenError>)
        ensures
            match config@.secret {
                None => r matches Err(e) && e == TokenError::SecretNotFound,
                Some(secret) => if secret.len() == 0 {
                    r matches Err(e) && e == TokenError::KeyCreationError
                } else {
                    r matches Ok(key) && key@ == encode_utf8(secret)
                },
            },
            match signing_key(config@) {
                Ok(bytes) => r matches Ok(key) && key@ == bytes,
                Err(e) => r matches Err(err) && err == e,
            },
    {
        match &config.secret {
            None => Err(TokenError::SecretNotFound),
            Some(secret) => SigningKey::derive(secret.as_str()),
        }
    }

    /// Mints a token for `data` at `now`. The token then yields `data`
    /// until its validity window has passed, and `TokenExpired` from then on.
    pub fn encode_at(data: T, config: &JwtConfig, now: i64) -> (r: Result<Self, TokenError>)
        ensures
            match encoded::<T>(data@, config@, now as int) {
                Ok(token) => r matches Ok(t) && t@ == token,
                Err(e) => r matches Err(err) && err == e,
            },
            r matches Ok(t) ==> (issued(data@, config@.expire_secs, now as int) matches Ok(claim)
                && forall|later: int| #[trigger]
                decoded::<T>(t@, config@, later) == verified(claim, later)),
    {
        let key = match Self::get_key(config) {
            Ok(key) => key,
            Err(e) => {
                return Err(e);
            },
        };
        let claim = Claim::<T>::from_data_at(data, config, now)?;
        let claims = claim.to_json();
        match sign(&key, claims.as_str()) {
            Ok(text) => Ok(Token { text, shape: PhantomData }),
            Err(_) => Err(TokenError::JwtError),
        }
    }

    /// Mints a token for `data` at the time that the system clock shows.
    pub fn encode(data: T, config: &JwtConfig) -> (r: Result<Self, TokenError>)
        ensures
            exists|now: i64|
                {
                    &&& match #[trigger] encoded::<T>(data@, config@, now as int) {
                        Ok(token) => r matches Ok(t) && t@ == token,
                        Err(e) => r matches Err(err) && err == e,
                    }
                    &&& r matches Ok(t) ==> (issued(data@, config@.expire_secs, now as int) matches Ok(
                        claim,
                    ) && forall|later: int| #[trigger]
                        decoded::<T>(t@, config@, later) == verified(claim, later))
                },
    {
        let now = unix_now();
        let r = Self::encode_at(data, config, now);
        proof {
            let _ = encoded::<T>(data@, config@, now as int);
        }
        r
    }

    /// Checks the token at `now` and hands its payload out.
    pub fn decode_at(self, config: &JwtConfig, now: i64) -> (r: Result<T, TokenError>)
        ensures
            match decoded::<T>(self@, config@, now as int) {
                Ok(data) => r matches Ok(d) && d@ == data,
                Err(e) => r matches Err(err) && err == e,
            },
    {
        let key = Self::get_key(config)?;
        let claims = match verify(&key, self.text.as_str()) {
            Ok(claims) => claims,
            Err(_) => {
                return Err(TokenError::JwtError);
            },
        };
        let claim = match Claim::<T>::from_json(claims.as_str()) {
            Some(claim) => claim,
            None => {
                return Err(TokenError::JwtError);
            },
        };
        claim.verify_at(now)
    }

    /// Checks the token at the time that the system clock shows and hands
    /// its payload out.
    pub fn decode(self, config: &JwtConfig) -> (r: Result<T, TokenError>)
        ensures
            exists|now: i64|
                match #[trigger] decoded::<T>(self@, config@, now as int) {
                    Ok(data) => r matches Ok(d) && d@ == data,
                    Err(e) => r matches Err(err) && err == e,
                },
    {
        let now = unix_now();
        let ghost token = self@;
        let r = self.decode_at(config, now);
        proof {
            let _ = decoded::<T>(token, config@, now as int);
        }
        r
    }
}

} // verus!

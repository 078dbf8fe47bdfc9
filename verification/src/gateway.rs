//! The way of a request from its `Authorization` header to the identity
//! that acts: the header is parsed, the token's signature is checked, then
//! its expiry, and its payload names the user. The first step that fails
//! decides the error.
use crate::jwt::clock::unix_now;
use crate::jwt::config::{JwtConfig, JwtConfigView};
use crate::jwt::error::TokenError;
use crate::jwt::token::{bearer, decoded, header_text, Token};
use crate::user::helper_structs::{TokenStruct, TokenStructView};
use vstd::prelude::*;

verus! {

/// The identity that a request presents at `now`, on a route that asks for
/// one: every failure ends the request.
pub open spec fn identity(header: Option<Seq<char>>, config: JwtConfigView, now: int) -> Result<
    TokenStructView,
    TokenError,
> {
    match bearer(header) {
        Err(e) => Err(e),
        Ok(token) => decoded::<TokenStruct>(token, config, now),
    }
}

/// The identity that a request presents at `now`, on a route that works
/// without one: a request without a bearer token goes on unauthenticated,
/// one with a token that does not stand fails.
pub open spec fn optional_identity(
    header: Option<Seq<char>>,
    config: JwtConfigView,
    now: int,
) -> Result<Option<TokenStructView>, TokenError> {
    match bearer(header) {
        Err(_) => Ok(None),
        Ok(token) => match decoded::<TokenStruct>(token, config, now) {
            Ok(id) => Ok(Some(id)),
            Err(e) => Err(e),
        },
    }
}

/// The identity on whose behalf a paste is deleted: the one presented, where
/// the request says that the paste is its own; none otherwise, whatever
/// the request presents.
pub open spec fn deleting_identity(
    my: Option<bool>,
    header: Option<Seq<char>>,
    config: JwtConfigView,
    now: int,
) -> Result<Option<TokenStructView>, TokenError> {
    if my == Some(true) {
        optional_identity(header, config, now)
    } else {
        Ok(None)
    }
}

/// Resolves the identity of a request at `now`, on a route that asks for one.
pub fn authenticate_at(header: Option<&str>, config: &JwtConfig, now: i64) -> (r: Result<
    TokenStruct,
    TokenError,
>)
    ensures
        match identity(header_text(header), config@, now as int) {
            Ok(id) => r matches Ok(user) && user@ == id,
            Err(e) => r matches Err(err) && err == e,
        },
{
    let token = Token::<TokenStruct>::from_header(header)?;
    token.decode_at(config, now)
}

/// Resolves the identity of a request at `now`, on a route that works
/// without one.
pub fn authenticate_optional_at(header: Option<&str>, config: &JwtConfig, now: i64) -> (r: Result<
    Option<TokenStruct>,
    TokenError,
>)
    ensures
        match optional_identity(header_text(header), config@, now as int) {
            Ok(Some(id)) => r matches Ok(Some(user)) && user@ == id,
            Ok(None) => r matches Ok(None),
            Err(e) => r matches Err(err) && err == e,
        },
{
    match Token::<TokenStruct>::from_header(header) {
        Err(_) => Ok(None),
        Ok(token) => match token.decode_at(config, now) {
            Ok(user) => Ok(Some(user)),
            Err(e) => Err(e),
        },
    }
}

/// Resolves the identity on whose behalf a paste is deleted at `now`.
pub fn authenticate_delete_at(
    my: Option<bool>,
    header: Option<&str>,
    config: &JwtConfig,
    now: i64,
) -> (r: Result<Option<TokenStruct>, TokenError>)
    ensures
        match deleting_identity(my, header_text(header), config@, now as int) {
            Ok(Some(id)) => r matches Ok(Some(user)) && user@ == id,
            Ok(None) => r matches Ok(None),
            Err(e) => r matches Err(err) && err == e,
        },
{
    match my {
        Some(true) => authenticate_optional_at(header, config, now),
        _ => Ok(None),
    }
}

/// Resolves the identity of a request at the time that the system clock
/// shows, on a route that asks for one.
pub fn authenticate(header: Option<&str>, config: &JwtConfig) -> (r: Result<
    TokenStruct,
    TokenError,
>)
    ensures
        exists|now: i64|
            match #[trigger] identity(header_text(header), config@, now as int) {
                Ok(id) => r matches Ok(user) && user@ == id,
                Err(e) => r matches Err(err) && err == e,
            },
{
    let now = unix_now();
    let r = authenticate_at(header, config, now);
    proof {
        let _ = identity(header_text(header), config@, now as int);
    }
    r
}

/// Resolves the identity of a request at the time that the system clock
/// shows, on a route that works without one.
pub fn authenticate_optional(header: Option<&str>, config: &JwtConfig) -> (r: Result<
    Option<TokenStruct>,
    TokenError,
>)
    ensures
        exists|now: i64|
            match #[trigger] optional_identity(header_text(header), config@, now as int) {
                Ok(Some(id)) => r matches Ok(Some(user)) && user@ == id,
                Ok(None) => r matches Ok(None),
                Err(e) => r matches Err(err) && err == e,
            },
{
    let now = unix_now();
    let r = authenticate_optional_at(header, config, now);
    proof {
        let _ = optional_identity(header_text(header), config@, now as int);
    }
    r
}

/// Resolves the identity on whose behalf a paste is deleted, at the time
/// that the system clock shows.
pub fn authenticate_delete(my: Option<bool>, header: Option<&str>, config: &JwtConfig) -> (r:
    Result<Option<TokenStruct>, TokenError>)
    ensures
        exists|now: i64|
            match #[trigger] deleting_identity(my, header_text(header), config@, now as int) {
                Ok(Some(id)) => r matches Ok(Some(user)) && user@ == id,
                Ok(None) => r matches Ok(None),
                Err(e) => r matches Err(err) && err == e,
            },
{
    let now = unix_now();
    let r = authenticate_delete_at(my, header, config, now);
    proof {
        let _ = deleting_identity(my, header_text(header), config@, now as int);
    }
    r
}

} // verus!

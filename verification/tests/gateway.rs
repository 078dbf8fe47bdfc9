use paste_service::gateway::{
    authenticate, authenticate_at, authenticate_delete, authenticate_delete_at,
    authenticate_optional, authenticate_optional_at,
};
use paste_service::{JwtConfig, Token, TokenError, UserToken};

fn config() -> JwtConfig {
    JwtConfig { secret: Some("secret".to_string()), expire_secs: Some("60".to_string()) }
}

fn alice() -> UserToken {
    UserToken { username: "alice".to_string() }
}

fn presented(now: i64) -> String {
    format!("Bearer {}", Token::encode_at(alice(), &config(), now).unwrap().as_str())
}

#[test]
fn a_route_that_asks_for_an_identity() {
    let header = presented(1000);
    assert_eq!(authenticate_at(Some(&header), &config(), 1030), Ok(alice()));
    assert_eq!(authenticate_at(None, &config(), 1030), Err(TokenError::NoAuthHeader));
    assert_eq!(
        authenticate_at(Some("Token abc"), &config(), 1030),
        Err(TokenError::MalformedAuthHeader)
    );
    assert_eq!(authenticate_at(Some("Bearer abc"), &config(), 1030), Err(TokenError::JwtError));
    assert_eq!(authenticate_at(Some(&header), &config(), 1061), Err(TokenError::TokenExpired));
}

#[test]
fn the_header_is_parsed_before_the_secret_is_asked_for() {
    let none = JwtConfig { secret: None, expire_secs: None };
    assert_eq!(authenticate_at(None, &none, 0), Err(TokenError::NoAuthHeader));
    assert_eq!(authenticate_at(Some("x"), &none, 0), Err(TokenError::MalformedAuthHeader));
    assert_eq!(authenticate_at(Some("Bearer x"), &none, 0), Err(TokenError::SecretNotFound));
    let empty = JwtConfig { secret: Some(String::new()), expire_secs: None };
    assert_eq!(authenticate_at(Some("Bearer x"), &empty, 0), Err(TokenError::KeyCreationError));
    assert_eq!(authenticate_at(None, &empty, 0), Err(TokenError::NoAuthHeader));
}

#[test]
fn a_route_that_works_without_an_identity() {
    let header = presented(1000);
    assert_eq!(authenticate_optional_at(Some(&header), &config(), 1030), Ok(Some(alice())));
    assert_eq!(authenticate_optional_at(None, &config(), 1030), Ok(None));
    assert_eq!(authenticate_optional_at(Some("Token abc"), &config(), 1030), Ok(None));
    assert_eq!(
        authenticate_optional_at(Some("Bearer abc"), &config(), 1030),
        Err(TokenError::JwtError)
    );
    assert_eq!(
        authenticate_optional_at(Some(&header), &config(), 1061),
        Err(TokenError::TokenExpired)
    );
}

#[test]
fn deleting_as_oneself_or_as_nobody() {
    let header = presented(1000);
    assert_eq!(authenticate_delete_at(Some(true), Some(&header), &config(), 1030), Ok(Some(alice())));
    assert_eq!(authenticate_delete_at(Some(false), Some(&header), &config(), 1030), Ok(None));
    assert_eq!(authenticate_delete_at(None, Some(&header), &config(), 1030), Ok(None));
    assert_eq!(authenticate_delete_at(Some(true), None, &config(), 1030), Ok(None));
    assert_eq!(authenticate_delete_at(None, Some("Bearer abc"), &config(), 1030), Ok(None));
    assert_eq!(
        authenticate_delete_at(Some(true), Some("Bearer abc"), &config(), 1030),
        Err(TokenError::JwtError)
    );
    assert_eq!(
        authenticate_delete_at(Some(true), Some(&header), &config(), 2000),
        Err(TokenError::TokenExpired)
    );
}

#[test]
fn identities_by_the_clock() {
    let config = JwtConfig {
        secret: Some("secret".to_string()),
        expire_secs: Some("3600".to_string()),
    };
    let fresh = format!("Bearer {}", Token::encode(alice(), &config).unwrap().as_str());
    let stale = presented(1000);
    assert_eq!(authenticate(Some(&fresh), &config), Ok(alice()));
    assert_eq!(authenticate(Some(&stale), &config), Err(TokenError::TokenExpired));
    assert_eq!(authenticate(None, &config), Err(TokenError::NoAuthHeader));
    assert_eq!(authenticate_optional(Some(&fresh), &config), Ok(Some(alice())));
    assert_eq!(authenticate_optional(None, &config), Ok(None));
    assert_eq!(authenticate_optional(Some(&stale), &config), Err(TokenError::TokenExpired));
    assert_eq!(authenticate_delete(Some(true), Some(&fresh), &config), Ok(Some(alice())));
    assert_eq!(authenticate_delete(None, Some(&stale), &config), Ok(None));
    assert_eq!(
        authenticate_delete(Some(true), Some(&stale), &config),
        Err(TokenError::TokenExpired)
    );
}

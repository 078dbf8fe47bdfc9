use paste_service::{ResponseParams, TokenError};

fn params(status: u16, error: &str, code: &str) -> ResponseParams {
    ResponseParams { status, error: error.to_string(), code: code.to_string() }
}

#[test]
fn a_missing_or_malformed_header_asks_for_credentials() {
    assert_eq!(
        TokenError::NoAuthHeader.to_response_params(),
        params(400, "please provide credentials", "NoAuthHeader")
    );
    assert_eq!(
        TokenError::MalformedAuthHeader.to_response_params(),
        params(401, "please provide credentials", "MalformedAuthHeader")
    );
}

#[test]
fn a_refused_token_does_not_tell_why() {
    let expired = TokenError::TokenExpired.to_response_params();
    let invalid = TokenError::JwtError.to_response_params();
    assert_eq!(expired, params(401, "invalid token", "TokenExpired"));
    assert_eq!(invalid, params(401, "invalid token", "JwtError"));
    assert_eq!(expired.error, invalid.error);
    assert_eq!(expired.status, invalid.status);
}

#[test]
fn a_fault_of_the_operator_is_a_server_error() {
    assert_eq!(
        TokenError::SecretNotFound.to_response_params(),
        params(500, "please contact admins", "SecretNotFound")
    );
    assert_eq!(
        TokenError::JwtExpiryTimeNotFound.to_response_params(),
        params(500, "please contact admins", "JwtExpiryTimeNotFound")
    );
    assert_eq!(
        TokenError::JwtExpiryNotValid.to_response_params(),
        params(500, "please contact admins", "JwtExpiryNotValid")
    );
    assert_eq!(
        TokenError::KeyCreationError.to_response_params(),
        params(500, "please contact admins", "KeyCreationError")
    );
}

#[test]
fn the_code_of_an_error_is_its_name() {
    assert_eq!(TokenError::JwtError.as_ref(), "JwtError");
    assert_eq!(TokenError::SecretNotFound.as_ref(), "SecretNotFound");
    assert_eq!(TokenError::JwtExpiryTimeNotFound.as_ref(), "JwtExpiryTimeNotFound");
    assert_eq!(TokenError::JwtExpiryNotValid.as_ref(), "JwtExpiryNotValid");
    assert_eq!(TokenError::KeyCreationError.as_ref(), "KeyCreationError");
    assert_eq!(TokenError::TokenExpired.as_ref(), "TokenExpired");
    assert_eq!(TokenError::MalformedAuthHeader.as_ref(), "MalformedAuthHeader");
    assert_eq!(TokenError::NoAuthHeader.as_ref(), "NoAuthHeader");
}

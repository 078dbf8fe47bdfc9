//! What can go wrong with a token.
use crate::response::ResponseParams;
use vstd::prelude::*;

verus! {

#[derive(Debug, Clone, Copy, PartialEq, Eq)]
pub enum TokenError {
    /// The token's signature or form is not valid, or signing failed.
    JwtError,
    /// No signing secret is configured.
    SecretNotFound,
    /// No validity window is configured.
    JwtExpiryTimeNotFound,
    /// The configured validity window is not a count of seconds.
    JwtExpiryNotValid,
    /// The signing secret cannot seed the MAC.
    KeyCreationError,
    /// The token's validity window has passed.
    TokenExpired,
    /// The authorization header does not carry a bearer token.
    MalformedAuthHeader,
    /// The request has no authorization header.
    NoAuthHeader,
}

impl TokenError {
    /// The name of the error, which is its machine-readable code.
    pub open spec fn code(self) -> Seq<char> {
        match self {
            TokenError::JwtError => "JwtError"@,
            TokenError::SecretNotFound => "SecretNotFound"@,
            TokenError::JwtExpiryTimeNotFound => "JwtExpiryTimeNotFound"@,
            TokenError::JwtExpiryNotValid => "JwtExpiryNotValid"@,
            TokenError::KeyCreationError => "KeyCreationError"@,
            TokenError::TokenExpired => "TokenExpired"@,
            TokenError::MalformedAuthHeader => "MalformedAuthHeader"@,
            TokenError::NoAuthHeader => "NoAuthHeader"@,
        }
    }

    /// Whether the client caused the error by what it sent.
    pub open spec fn is_client_input(self) -> bool {
        self is NoAuthHeader || self is MalformedAuthHeader
    }

    /// Whether the error says that the presented token does not stand.
    pub open spec fn is_authentication_state(self) -> bool {
        self is TokenExpired || self is JwtError
    }

    /// The HTTP status of the response.
    pub open spec fn status(self) -> u16 {
        match self {
            TokenError::NoAuthHeader => 400,
            TokenError::MalformedAuthHeader | TokenError::TokenExpired | TokenError::JwtError => 401,
            _ => 500,
        }
    }

    /// The message for the user. It never tells why a token was refused, and
    /// says nothing of a fault on the operator's side.
    pub open spec fn message(self) -> Seq<char> {
        if self.is_client_input() {
            "please provide credentials"@
        } else if self.is_authentication_state() {
            "invalid token"@
        } else {
            "please contact admins"@
        }
    }

    pub fn as_ref(&self) -> (name: &'static str)
        ensures
            name@ == self.code(),
    {
        match self {
            TokenError::JwtError => "JwtError",
            TokenError::SecretNotFound => "SecretNotFound",
            TokenError::JwtExpiryTimeNotFound => "JwtExpiryTimeNotFound",
            TokenError::JwtExpiryNotValid => "JwtExpiryNotValid",
            TokenError::KeyCreationError => "KeyCreationError",
            TokenError::TokenExpired => "TokenExpired",
            TokenError::MalformedAuthHeader => "MalformedAuthHeader",
            TokenError::NoAuthHeader => "NoAuthHeader",
        }
    }

    pub fn to_response_params(self) -> (r: ResponseParams)
        ensures
            r.status == self.status(),
            r.error@ == self.message(),
            r.code@ == self.code(),
    {
        let code = self.as_ref().to_owned();
        match self {
            TokenError::NoAuthHeader => ResponseParams {
                status: 400,
                error: "please provide credentials".to_owned(),
                code,
            },
            TokenError::MalformedAuthHeader => ResponseParams {
                status: 401,
                error: "please provide credentials".to_owned(),
                code,
            },
            TokenError::TokenExpired | TokenError::JwtError => ResponseParams {
                status: 401,
                error: "invalid token".to_owned(),
                code,
            },
            TokenError::JwtExpiryTimeNotFound
            | TokenError::JwtExpiryNotValid
            | TokenError::SecretNotFound
            | TokenError::KeyCreationError => ResponseParams {
                status: 500,
                error: "please contact admins".to_owned(),
                code,
            },
        }
    }
}

} // verus!

//! Signed, time-bounded bearer tokens.
pub mod claim;
pub mod clock;
pub mod config;
pub mod error;
pub mod hs256;
pub mod payload;
pub mod token;

pub use self::claim::Claim;
pub use self::config::JwtConfig;
pub use self::error::TokenError;
pub use self::payload::Payload;
pub use self::token::Token;

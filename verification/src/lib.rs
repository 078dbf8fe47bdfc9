//! Authentication and identity scoping for a paste-sharing service.
//!
//! The library issues and checks signed, time-bounded bearer tokens, keeps
//! the rules of the credential store, draws paste identifiers and resolves
//! them to storage paths scoped to their owner.
pub mod args;
pub mod decimal;
pub mod gateway;
pub mod json;
pub mod jwt;
pub mod paste;
pub mod path;
pub mod response;
pub mod text;
pub mod user;

pub use crate::args::Args;
pub use crate::jwt::{Claim, JwtConfig, Payload, Token, TokenError};
pub use crate::paste::PasteId;
pub use crate::response::ResponseParams;
pub use crate::user::{
    LoginForm, PassWordChangeForm, RegUserForm, Registration, RegistrationPlan, User, UserError,
    UserToken,
};

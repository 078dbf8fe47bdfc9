//! The configuration of the token codec.
use vstd::prelude::*;

verus! {

/// The two settings of the token codec, as the environment gives them: each
/// is the raw value, or none where the variable is not set.
#[derive(Debug, Clone, PartialEq, Eq)]
pub struct JwtConfig {
    /// `JWT_SECRET`: the signing secret.
    pub secret: Option<String>,
    /// `JWT_EXPIRE_SECS`: the validity window of a token, in seconds.
    pub expire_secs: Option<String>,
}

/// The settings as contracts speak of them.
pub struct JwtConfigView {
    pub secret: Option<Seq<char>>,
    pub expire_secs: Option<Seq<char>>,
}

/// The text of an optional string.
pub open spec fn text_of(s: Option<String>) -> Option<Seq<char>> {
    match s {
        Some(s) => Some(s@),
        None => None,
    }
}

impl View for JwtConfig {
    type V = JwtConfigView;

    open spec fn view(&self) -> JwtConfigView {
        JwtConfigView { secret: text_of(self.secret), expire_secs: text_of(self.expire_secs) }
    }
}

} // verus!

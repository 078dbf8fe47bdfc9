//! The identity that a token carries.
use super::base_struct::User;
use crate::json::{json_quoted, json_unquoted, quote, unquote};
use crate::jwt::payload::Payload;
use crate::text::{chars_of, enclosed, lemma_enclosed, read_enclosed};
use vstd::prelude::*;
use vstd::string::{StrSliceExecFns, StringExecFns};

verus! {

/// The payload of a login token: the name of the user who logged in.
#[derive(Debug, Clone, PartialEq, Eq)]
pub struct TokenStruct {
    pub username: String,
}

/// An identity as contracts speak of it.
pub struct TokenStructView {
    pub username: Seq<char>,
}

impl View for TokenStruct {
    type V = TokenStructView;

    open spec fn view(&self) -> TokenStructView {
        TokenStructView { username: self.username@ }
    }
}

impl From<User> for TokenStruct {
    fn from(user: User) -> (token: Self) {
        Self { username: user.username }
    }
}

impl vstd::std_specs::convert::FromSpecImpl<User> for TokenStruct {
    open spec fn obeys_from_spec() -> bool {
        true
    }

    open spec fn from_spec(user: User) -> Self {
        TokenStruct { username: user.username }
    }
}

impl Payload for TokenStruct {
    /// `{"username":` and the name as a JSON string literal, then `}`.
    open spec fn json(value: TokenStructView) -> Seq<char> {
        "{\"username\":"@ + json_quoted(value.username) + "}"@
    }

    open spec fn parse(text: Seq<char>) -> Option<TokenStructView> {
        match enclosed(text, "{\"username\":"@, "}"@) {
            None => None,
            Some(literal) => match json_unquoted(literal) {
                Some(username) => Some(TokenStructView { username }),
                None => None,
            },
        }
    }

    fn to_json(&self) -> (text: String) {
        let username = quote(self.username.as_str());
        let mut text = "{\"username\":".to_owned();
        text.append(username.as_str());
        text.append("}");
        proof {
            lemma_enclosed("{\"username\":"@, username@, "}"@);
            assert(text@ =~= Self::json(self@));
        }
        text
    }

    fn from_json(text: &str) -> (r: Option<Self>) {
        let chars = chars_of(text);
        proof {
            assert(chars@.skip(0) =~= text@);
        }
        match read_enclosed(chars.as_slice(), 0, "{\"username\":", "}") {
            None => None,
            Some((from, to)) => match unquote(text.substring_char(from, to)) {
                Some(username) => Some(TokenStruct { username }),
                None => None,
            },
        }
    }
}

} // verus!

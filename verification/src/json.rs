//! JSON string literals, written and read by `serde_json`.
use vstd::prelude::*;

verus! {

#[verifier::external_type_specification]
#[verifier::external_body]
pub struct ExJsonError(serde_json::Error);

/// The JSON string literal that `serde_json::to_string` writes for a text.
pub uninterp spec fn json_quoted(s: Seq<char>) -> Seq<char>;

/// The text that `serde_json::from_str` reads from a JSON string literal, if
/// it reads one.
pub uninterp spec fn json_unquoted(literal: Seq<char>) -> Option<Seq<char>>;

/// Calls `serde_json::to_string` on a string slice. Trusted: the call
/// succeeds, since writing a string into memory cannot fail; the literal it
/// writes is a function of the text; and `serde_json::from_str` reads the
/// text back from that literal.
#[verifier::external_body]
fn to_literal(s: &str) -> (r: Result<String, serde_json::Error>)
    ensures
        r is Ok,
        r matches Ok(literal) ==> literal@ == json_quoted(s@),
        r matches Ok(literal) ==> json_unquoted(literal@) == Some(s@),
{
    serde_json::to_string(s)
}

/// Calls `serde_json::from_str` for a `String`. Trusted: whether it reads a
/// text, and which, is a function of the input.
#[verifier::external_body]
fn from_literal(literal: &str) -> (r: Result<String, serde_json::Error>)
    ensures
        r matches Ok(s) ==> json_unquoted(literal@) == Some(s@),
        r is Err ==> json_unquoted(literal@) is None,
{
    serde_json::from_str::<String>(literal)
}

/// Writes `s` as a JSON string literal.
pub(crate) fn quote(s: &str) -> (literal: String)
    ensures
        literal@ == json_quoted(s@),
        json_unquoted(literal@) == Some(s@),
{
    match to_literal(s) {
        Ok(literal) => literal,
        Err(_) => String::new(),
    }
}

/// Reads a JSON string literal.
pub(crate) fn unquote(literal: &str) -> (r: Option<String>)
    ensures
        r matches Some(s) ==> json_unquoted(literal@) == Some(s@),
        r is None ==> json_unquoted(literal@) is None,
{
    match from_literal(literal) {
        Ok(s) => Some(s),
        Err(_) => None,
    }
}

} // verus!

//! What a token can carry.
use vstd::prelude::*;

verus! {

/// A value that a claim can carry: one that is written as JSON and read back
/// from it. The shape of the payload is fixed by the type at each call, so a
/// token is never read as another shape than the caller names.
pub trait Payload: View + Sized {
    /// The JSON text of a value.
    spec fn json(value: Self::V) -> Seq<char>;

    /// The value that a JSON text stands for, if it stands for one.
    spec fn parse(text: Seq<char>) -> Option<Self::V>;

    /// Writes the value as JSON. What is written is read back as the value.
    fn to_json(&self) -> (text: String)
        ensures
            text@ == Self::json(self@),
            Self::parse(text@) == Some(self@),
    ;

    /// Reads a value from its JSON text.
    fn from_json(text: &str) -> (r: Option<Self>)
        ensures
            r matches Some(value) ==> Self::parse(text@) == Some(value@),
            r is None ==> Self::parse(text@) is None,
    ;
}

} // verus!

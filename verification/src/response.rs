//! What an error tells the client.
use vstd::prelude::*;

verus! {

/// The parts of an error response: the HTTP status, the message for the
/// user, and the machine-readable code, which is the name of the error.
#[derive(Debug, Clone, PartialEq, Eq)]
pub struct ResponseParams {
    pub status: u16,
    pub error: String,
    pub code: String,
}

} // verus!

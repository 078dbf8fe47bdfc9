//! The settings of the service that the command line gives.
use crate::path::{child, join};
use vstd::prelude::*;

verus! {

/// The settings of the service.
#[derive(Debug, Clone, PartialEq, Eq)]
pub struct Args {
    /// The address under which the service answers.
    pub host: String,
    /// The number of symbols of a new identifier.
    pub id_length: usize,
    /// The upload root: the directory below which the pastes are stored.
    pub upload: String,
}

impl Default for Args {
    /// The settings where the command line gives none.
    fn default() -> (args: Self)
        ensures
            args.host@ == "http://127.0.0.1"@,
            args.id_length == 64,
            args.upload@ == "upload"@,
    {
        Args { host: "http://127.0.0.1".to_owned(), id_length: 64, upload: "upload".to_owned() }
    }
}

impl Args {
    /// The directory of what no user owns. It has to exist before the
    /// service takes a request. The upload root is to hold a name: from an
    /// empty one the path begins with the separator.
    pub fn anonymous_dir(&self) -> (path: String)
        ensures
            path@ == child(self.upload@, "anonymous"@),
    {
        join(self.upload.as_str(), "anonymous")
    }
}

} // verus!

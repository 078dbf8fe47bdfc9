//! The credential record.
use crate::json::{json_quoted, quote};
use crate::path::{child, join};
use vstd::prelude::*;
use vstd::string::StringExecFns;

verus! {

/// A credential record: a username and its password.
#[derive(Debug, Clone, PartialEq, Eq)]
pub struct User {
    pub username: String,
    pub password: String,
}

/// A record as contracts speak of it.
pub struct UserView {
    pub username: Seq<char>,
    pub password: Seq<char>,
}

impl View for User {
    type V = UserView;

    open spec fn view(&self) -> UserView {
        UserView { username: self.username@, password: self.password@ }
    }
}

/// The JSON text of a record, as it is stored.
pub open spec fn credentials_json(user: UserView) -> Seq<char> {
    "{\"username\":"@ + json_quoted(user.username) + ",\"password\":"@ + json_quoted(
        user.password,
    ) + "}"@
}

/// The directory of a user below the upload root.
pub open spec fn user_dir(root: Seq<char>, username: Seq<char>) -> Seq<char> {
    child(root, username)
}

/// The file that holds the record of a user.
pub open spec fn credentials_path(root: Seq<char>, username: Seq<char>) -> Seq<char> {
    child(user_dir(root, username), ".credentials"@)
}

impl User {
    /// The record that owns what no user owns: `anonymous`, with an empty
    /// password.
    pub fn anonymous() -> (user: Self)
        ensures
            user@ == (UserView { username: "anonymous"@, password: Seq::<char>::empty() }),
    {
        Self { username: "anonymous".to_owned(), password: String::new() }
    }

    /// The record as JSON, as it is stored.
    pub fn credentials(&self) -> (text: String)
        ensures
            text@ == credentials_json(self@),
    {
        let username = quote(self.username.as_str());
        let password = quote(self.password.as_str());
        let mut text = "{\"username\":".to_owned();
        text.append(username.as_str());
        text.append(",\"password\":");
        text.append(password.as_str());
        text.append("}");
        assert(text@ =~= credentials_json(self@));
        text
    }

    /// The directory of `username` below `root`. From an empty `root` the
    /// path begins with the separator.
    pub fn dir_of(root: &str, username: &str) -> (path: String)
        ensures
            path@ == user_dir(root@, username@),
    {
        join(root, username)
    }

    /// The file that holds the record of `username` below `root`.
    pub fn credentials_file(root: &str, username: &str) -> (path: String)
        ensures
            path@ == credentials_path(root@, username@),
    {
        let dir = join(root, username);
        join(dir.as_str(), ".credentials")
    }
}

} // verus!

//! What can go wrong with an account.
use crate::response::ResponseParams;
use vstd::prelude::*;

verus! {

#[derive(Debug, Clone, Copy, PartialEq, Eq)]
pub enum UserError {
    /// The username is taken.
    UserExists,
    /// The username is unknown, its record cannot be read, or the password
    /// is wrong: the error does not tell which.
    IncorrectCredentials,
    /// The password and its confirmation differ.
    PasswordsDontMatch,
    /// The record could not be stored.
    RegistrationFailed,
}

impl UserError {
    /// The name of the error, which is its machine-readable code.
    pub open spec fn code(self) -> Seq<char> {
        match self {
            UserError::UserExists => "UserExists"@,
            UserError::IncorrectCredentials => "IncorrectCredentials"@,
            UserError::PasswordsDontMatch => "PasswordsDontMatch"@,
            UserError::RegistrationFailed => "RegistrationFailed"@,
        }
    }

    /// The HTTP status of the response: a fault of the store is a server
    /// error, everything that the client sent wrongly a bad request.
    pub open spec fn status(self) -> u16 {
        match self {
            UserError::RegistrationFailed => 500,
            UserError::IncorrectCredentials => 400,
            UserError::UserExists => 400,
            UserError::PasswordsDontMatch => 400,
        }
    }

    /// The message for the user.
    pub open spec fn message(self) -> Seq<char> {
        match self {
            UserError::RegistrationFailed =>
                "registration failed, if problem persists contact admins"@,
            UserError::IncorrectCredentials => "please provide correct credentials"@,
            UserError::UserExists => "failed to register, username already exists"@,
            UserError::PasswordsDontMatch => "failed to register, passwords dont match"@,
        }
    }

    pub fn as_ref(&self) -> (name: &'static str)
        ensures
            name@ == self.code(),
    {
        match self {
            UserError::UserExists => "UserExists",
            UserError::IncorrectCredentials => "IncorrectCredentials",
            UserError::PasswordsDontMatch => "PasswordsDontMatch",
            UserError::RegistrationFailed => "RegistrationFailed",
        }
    }

    pub fn to_response_params(self) -> (r: ResponseParams)
        ensures
            r.status == self.status(),
            r.error@ == self.message(),
            r.code@ == self.code(),
    {
        let code = self.as_ref().to_owned();
        match self {
            UserError::RegistrationFailed => ResponseParams {
                status: 500,
                error: "registration failed, if problem persists contact admins".to_owned(),
                code,
            },
            UserError::IncorrectCredentials => ResponseParams {
                status: 400,
                error: "please provide correct credentials".to_owned(),
                code,
            },
            UserError::UserExists => ResponseParams {
                status: 400,
                error: "failed to register, username already exists".to_owned(),
                code,
            },
            UserError::PasswordsDontMatch => ResponseParams {
                status: 400,
                error: "failed to register, passwords dont match".to_owned(),
                code,
            },
        }
    }
}

} // verus!

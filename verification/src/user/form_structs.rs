//! What a client sends to register, to log in and to change a password,
//! and what each does to the record.
use super::base_struct::{credentials_json, credentials_path, user_dir, User, UserView};
use super::error::UserError;
use super::registration::{Registration, RegistrationPlan};
use vstd::prelude::*;

verus! {

#[derive(Debug, Clone)]
pub struct RegUserForm {
    pub password: String,
    pub confirm_password: String,
    pub username: String,
}

impl User {
    /// Begins the registration of a user below the upload root `root`:
    /// where the password and its confirmation agree, the store is asked
    /// whether the user's directory exists.
    pub fn register(form_data: RegUserForm, root: &str) -> (r: Result<Registration, UserError>)
        ensures
            form_data.password@ != form_data.confirm_password@ ==> r == Err::<
                Registration,
                UserError,
            >(UserError::PasswordsDontMatch),
            form_data.password@ == form_data.confirm_password@ ==> (r matches Ok(
                Registration::Probing(plan),
            ) && plan.user_dir@ == user_dir(root@, form_data.username@) && plan.credentials_path@
                == credentials_path(root@, form_data.username@) && plan.credentials@
                == credentials_json(
                UserView { username: form_data.username@, password: form_data.password@ },
            )),
    {
        if form_data.password != form_data.confirm_password {
            return Err(UserError::PasswordsDontMatch);
        }
        let new_user = Self { username: form_data.username, password: form_data.password };
        let credentials = new_user.credentials();
        let user_dir = User::dir_of(root, new_user.username.as_str());
        let credentials_path = User::credentials_file(root, new_user.username.as_str());
        Ok(Registration::Probing(RegistrationPlan { user_dir, credentials_path, credentials }))
    }
}

#[derive(Debug, Clone)]
pub struct PassWordChangeForm {
    pub old_password: String,
    pub new_password: String,
}

impl User {
    /// Sets a new password, where the old one is given. The record is
    /// changed in memory: to store it is the caller's part.
    pub fn change_password(&mut self, form_data: PassWordChangeForm) -> (r: Result<
        (),
        UserError,
    >)
        ensures
            form_data.old_password@ == old(self)@.password ==> r is Ok && final(self)@ == (UserView {
                username: old(self)@.username,
                password: form_data.new_password@,
            }),
            form_data.old_password@ != old(self)@.password ==> r == Err::<(), UserError>(
                UserError::IncorrectCredentials,
            ) && *final(self) == *old(self),
    {
        if form_data.old_password == self.password {
            self.password = form_data.new_password;
            Ok(())
        } else {
            Err(UserError::IncorrectCredentials)
        }
    }
}

#[derive(Debug, Clone)]
pub struct LoginForm {
    pub username: String,
    pub password: String,
}

impl User {
    /// Logs a user in against the record stored under the form's username:
    /// `stored` is that record, or none where the username is unknown or its
    /// record cannot be read. Every failure is the same error.
    pub fn login(form_data: LoginForm, stored: Option<User>) -> (r: Result<Self, UserError>)
        ensures
            match stored {
                Some(user) if user@.password == form_data.password@ => r == Ok::<
                    User,
                    UserError,
                >(user),
                _ => r == Err::<User, UserError>(UserError::IncorrectCredentials),
            },
    {
        match stored {
            None => Err(UserError::IncorrectCredentials),
            Some(user) => if user.password == form_data.password {
                Ok(user)
            } else {
                Err(UserError::IncorrectCredentials)
            },
        }
    }
}

} // verus!

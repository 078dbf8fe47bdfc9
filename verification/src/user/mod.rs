//! Accounts: the credential record and the rules of the credential store.
pub mod base_struct;
pub mod error;
pub mod form_structs;
pub mod helper_structs;
pub mod registration;

pub use self::base_struct::User;
pub use self::error::UserError;
pub use self::form_structs::{LoginForm, PassWordChangeForm, RegUserForm};
pub use self::helper_structs::TokenStruct as UserToken;
pub use self::registration::{Registration, RegistrationPlan};

//! What a client sends about an account.

use vstd::prelude::*;
use crate::models::site::Data;

verus! {

/// A request to open an account.
pub struct SignupData {
    pub email: String,
    pub username: String,
    pub password: String,
}

/// A request to sign in, by user name or e-mail address.
pub struct LoginData {
    pub identifier: String,
    pub password: String,
}

/// A request to change a profile; a field that is absent stays as it is.
pub struct EditData {
    pub name: Option<String>,
    pub bio: Option<String>,
    pub links: Option<Vec<Data>>,
    pub pronouns: Option<String>,
    pub phone: Option<String>,
    pub dob: Option<String>,
}

} // verus!

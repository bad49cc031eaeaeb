//! User identity records: one per email address.

use vstd::prelude::*;
use crate::email::Email;
use crate::password::Password;

verus! {

/// The mathematical content of a user record.
pub struct UserView {
    pub email: Seq<char>,
    pub password: Seq<char>,
    pub requires_2fa: bool,
}

#[derive(Debug)]
pub struct User {
    pub email: Email,
    pub password: Password,
    pub requires_2fa: bool,
}

impl View for User {
    type V = UserView;

    open spec fn view(&self) -> UserView {
        UserView {
            email: self.email@,
            password: self.password@,
            requires_2fa: self.requires_2fa,
        }
    }
}

impl User {
    pub fn new(email: Email, password: Password, requires_2fa: bool) -> (r: Self)
        ensures
            r@ == (UserView { email: email@, password: password@, requires_2fa }),
    {
        Self { email, password, requires_2fa }
    }
}

impl Clone for User {
    fn clone(&self) -> (r: Self)
        ensures
            r@ == self@,
    {
        User {
            email: self.email.clone(),
            password: self.password.clone(),
            requires_2fa: self.requires_2fa,
        }
    }
}

} // verus!

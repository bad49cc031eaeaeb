//! Validated passwords: a minimum length is enforced at the boundary.

use vstd::prelude::*;

verus! {

/// A password is acceptable when it has at least eight characters.
pub open spec fn valid_password(s: Seq<char>) -> bool {
    s.len() >= 8
}

/// A validated password; its view is the character sequence it holds.
#[derive(Debug)]
pub struct Password(String);

impl View for Password {
    type V = Seq<char>;

    closed spec fn view(&self) -> Seq<char> {
        self.0@
    }
}

#[derive(Debug)]
pub enum PasswordError {
    TooShort,
    Invalid,
}

impl Password {
    /// Accepts exactly the strings that `valid_password` admits and keeps them unchanged.
    pub fn parse(s: String) -> (r: Result<Password, PasswordError>)
        ensures
            r is Ok <==> valid_password(s@),
            r matches Ok(p) ==> p@ == s@,
            r matches Err(err) ==> err == PasswordError::TooShort,
    {
        if s.as_str().unicode_len() < 8 {
            return Err(PasswordError::TooShort);
        }
        Ok(Password(s))
    }

    pub fn as_str(&self) -> (r: &str)
        ensures
            r@ == self@,
    {
        self.0.as_str()
    }
}

impl Clone for Password {
    fn clone(&self) -> (r: Self)
        ensures
            r@ == self@,
    {
        Password(self.0.clone())
    }
}

impl PartialEq for Password {
    fn eq(&self, other: &Password) -> (r: bool)
    {
        self.0 == other.0
    }
}

impl vstd::std_specs::cmp::PartialEqSpecImpl for Password {
    open spec fn obeys_eq_spec() -> bool {
        true
    }

    open spec fn eq_spec(&self, other: &Password) -> bool {
        self@ == other@
    }
}

} // verus!

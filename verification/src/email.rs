//! Validated email addresses: the natural key for user records and challenges.

use vstd::prelude::*;

verus! {

/// An email address is acceptable when it is non-empty and contains an `@`.
pub open spec fn valid_email(s: Seq<char>) -> bool {
    s.len() > 0 && s.contains('@')
}

/// Scans `s` for the character `c`.
pub fn contains_char(s: &str, c: char) -> (r: bool)
    ensures
        r == s@.contains(c),
{
    let n = s.unicode_len();
    let mut i: usize = 0;
    while i < n
        invariant
            n == s@.len(),
            i <= n,
            forall|j: int| 0 <= j < i ==> s@[j] != c,
        decreases n - i,
    {
        if s.get_char(i) == c {
            assert(s@.contains(c)) by {
                assert(s@[i as int] == c);
            }
            return true;
        }
        i += 1;
    }
    false
}

/// A validated email address; its view is the character sequence it holds.
#[derive(Debug)]
pub struct Email(String);

impl View for Email {
    type V = Seq<char>;

    closed spec fn view(&self) -> Seq<char> {
        self.0@
    }
}

#[derive(Debug)]
pub enum EmailError {
    Invalid,
}

impl Email {
    /// Accepts exactly the strings that `valid_email` admits and keeps them unchanged.
    pub fn parse(s: String) -> (r: Result<Email, EmailError>)
        ensures
            r is Ok <==> valid_email(s@),
            r matches Ok(e) ==> e@ == s@,
            r matches Err(err) ==> err == EmailError::Invalid,
    {
        if s.as_str().is_empty() || !contains_char(s.as_str(), '@') {
            return Err(EmailError::Invalid);
        }
        Ok(Email(s))
    }

    pub fn as_str(&self) -> (r: &str)
        ensures
            r@ == self@,
    {
        self.0.as_str()
    }
}

impl Clone for Email {
    fn clone(&self) -> (r: Self)
        ensures
            r@ == self@,
    {
        Email(self.0.clone())
    }
}

impl PartialEq for Email {
    fn eq(&self, other: &Email) -> (r: bool)
    {
        self.0 == other.0
    }
}

impl vstd::std_specs::cmp::PartialEqSpecImpl for Email {
    open spec fn obeys_eq_spec() -> bool {
        true
    }

    open spec fn eq_spec(&self, other: &Email) -> bool {
        self@ == other@
    }
}

} // verus!

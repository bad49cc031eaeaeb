//! The pluggable store capabilities: user records, revoked tokens and pending
//! two-factor challenges, together with the identifier and code types the
//! challenge store works with.

use rand::Rng;
use vstd::prelude::*;
use crate::digits::{all_digits, check_all_digits, lemma_dec_digits_len6,
    lemma_dec_digits_all_digits, u64_to_string};
use crate::email::Email;
use crate::password::Password;
use crate::user::{User, UserView};

verus! {

#[derive(Debug, Clone, Copy, PartialEq, Eq, Structural)]
pub enum UserStoreError {
    UserAlreadyExists,
    UserNotFound,
    InvalidCredentials,
    UnexpectedError,
}

#[derive(Debug, Clone, Copy, PartialEq, Eq, Structural)]
pub enum BannedTokenStoreError {
    TokenAlreadyBanned,
    TokenNotFound,
    UnexpectedError,
}

#[derive(Debug, Clone, Copy, PartialEq, Eq, Structural)]
pub enum TwoFACodeStoreError {
    LoginAttemptIdNotFound,
    UnexpectedError,
}

/// Owns user identity records: at most one record per email, and password
/// validation against the stored record.
pub trait UserStore: Sized {
    // backends outside the verifier's reach (selected in the application
    // shell) leave these model defaults in place; verified backends
    // override them
    open spec fn users(&self) -> Map<Seq<char>, UserView> {
        Map::empty()
    }

    open spec fn inv(&self) -> bool {
        false
    }

    fn add_user(&mut self, user: User) -> (r: Result<(), UserStoreError>)
        requires
            old(self).inv(),
        ensures
            final(self).inv(),
            r is Ok <==> !old(self).users().contains_key(user.email@),
            r is Ok ==> final(self).users() == old(self).users().insert(user.email@, user@),
            r is Err ==> final(self).users() == old(self).users(),
            r matches Err(e) ==> e == UserStoreError::UserAlreadyExists,
    ;

    fn get_user(&self, email: &Email) -> (r: Result<User, UserStoreError>)
        requires
            self.inv(),
        ensures
            r is Ok <==> self.users().contains_key(email@),
            r matches Ok(u) ==> u@ == self.users()[email@],
            r matches Err(e) ==> e == UserStoreError::UserNotFound,
    ;

    fn validate_user(&self, email: &Email, password: &Password) -> (r: Result<
        (),
        UserStoreError,
    >)
        requires
            self.inv(),
        ensures
            r is Ok <==> self.users().contains_key(email@) && self.users()[email@].password
                == password@,
            r matches Err(e) ==> e == (if !self.users().contains_key(email@) {
                UserStoreError::UserNotFound
            } else {
                UserStoreError::InvalidCredentials
            }),
    ;
}

/// Owns the set of revoked tokens. Banning a token that is already banned
/// surfaces `TokenAlreadyBanned`, but leaves the token banned: callers that
/// only need the eventual "is banned" fact treat that signal as benign.
pub trait BannedTokenStore: Sized {
    // backends outside the verifier's reach leave these model defaults in
    // place; verified backends override them
    open spec fn tokens(&self) -> Set<Seq<char>> {
        Set::empty()
    }

    open spec fn inv(&self) -> bool {
        false
    }

    fn add_token(&mut self, token: String) -> (r: Result<(), BannedTokenStoreError>)
        requires
            old(self).inv(),
        ensures
            final(self).inv(),
            final(self).tokens() == old(self).tokens().insert(token@),
            r is Ok <==> !old(self).tokens().contains(token@),
            r matches Err(e) ==> e == BannedTokenStoreError::TokenAlreadyBanned,
    ;

    fn contains_token(&self, token: &str) -> (r: Result<bool, BannedTokenStoreError>)
        requires
            self.inv(),
        ensures
            r matches Ok(b) && b == self.tokens().contains(token@),
    ;

    fn remove_token(&mut self, token: &str) -> (r: Result<(), BannedTokenStoreError>)
        requires
            old(self).inv(),
        ensures
            final(self).inv(),
            final(self).tokens() == old(self).tokens().remove(token@),
            r is Ok <==> old(self).tokens().contains(token@),
            r matches Err(e) ==> e == BannedTokenStoreError::TokenNotFound,
    ;

    fn store_token(&mut self, token: String) -> (r: Result<(), BannedTokenStoreError>)
        requires
            old(self).inv(),
        ensures
            final(self).inv(),
            final(self).tokens() == old(self).tokens().insert(token@),
            r is Ok <==> !old(self).tokens().contains(token@),
            r matches Err(e) ==> e == BannedTokenStoreError::TokenAlreadyBanned,
    ;

    fn is_token_banned(&self, token: &str) -> (r: Result<bool, BannedTokenStoreError>)
        requires
            self.inv(),
        ensures
            r matches Ok(b) && b == self.tokens().contains(token@),
    ;
}

/// Owns pending two-factor challenges, keyed by email. Adding a challenge
/// overwrites any previous one for the same email.
pub trait TwoFACodeStore: Sized {
    // backends outside the verifier's reach leave these model defaults in
    // place; verified backends override them
    open spec fn codes(&self) -> Map<Seq<char>, (Seq<char>, Seq<char>)> {
        Map::empty()
    }

    open spec fn inv(&self) -> bool {
        false
    }

    fn add_code(
        &mut self,
        email: &Email,
        login_attempt_id: &LoginAttemptId,
        code: &TwoFACode,
    ) -> (r: Result<(), TwoFACodeStoreError>)
        requires
            old(self).inv(),
        ensures
            final(self).inv(),
            r is Ok,
            final(self).codes() == old(self).codes().insert(email@, (login_attempt_id@, code@)),
    ;

    fn remove_code(&mut self, email: &Email) -> (r: Result<(), TwoFACodeStoreError>)
        requires
            old(self).inv(),
        ensures
            final(self).inv(),
            r is Ok,
            final(self).codes() == old(self).codes().remove(email@),
    ;

    fn get_code(&self, email: &Email) -> (r: Result<
        (LoginAttemptId, TwoFACode),
        TwoFACodeStoreError,
    >)
        requires
            self.inv(),
        ensures
            r is Ok <==> self.codes().contains_key(email@),
            r matches Ok(p) ==> (p.0@, p.1@) == self.codes()[email@],
            r matches Err(e) ==> e == TwoFACodeStoreError::LoginAttemptIdNotFound,
    ;
}

/// Whether `uuid::Uuid::parse_str` accepts `s`; the answer depends on the
/// characters of `s` alone.
pub uninterp spec fn is_uuid(s: Seq<char>) -> bool;

/// Relies on `uuid::Uuid::parse_str`: a pure parser of hexadecimal digits
/// with optional hyphens, deterministic in its input.
#[verifier::external_body]
fn uuid_parse_ok(s: &str) -> (r: bool)
    ensures
        r == is_uuid(s@),
{
    uuid::Uuid::parse_str(s).is_ok()
}

/// Relies on `uuid::Uuid::new_v4` and `Uuid`'s `Display`: the rendering is
/// the hyphenated form, which `uuid::Uuid::parse_str` accepts.
#[verifier::external_body]
fn new_uuid_string() -> (r: String)
    ensures
        is_uuid(r@),
{
    uuid::Uuid::new_v4().to_string()
}

/// Relies on `rand::Rng::gen_range` on an inclusive, non-empty range: the
/// result lies within the bounds.
#[verifier::external_body]
fn random_in_range(lo: u64, hi: u64) -> (r: u64)
    requires
        lo <= hi,
    ensures
        lo <= r <= hi,
{
    rand::thread_rng().gen_range(lo..=hi)
}

/// The attempt identifier of a pending challenge: a string in UUID form.
#[derive(Debug)]
pub struct LoginAttemptId(String);

impl View for LoginAttemptId {
    type V = Seq<char>;

    closed spec fn view(&self) -> Seq<char> {
        self.0@
    }
}

impl LoginAttemptId {
    /// Accepts exactly the strings in UUID form and keeps them unchanged.
    pub fn parse(id: String) -> (r: Result<Self, String>)
        ensures
            r is Ok <==> is_uuid(id@),
            r matches Ok(l) ==> l@ == id@,
            r matches Err(m) ==> m@ == "Invalid UUID: "@ + id@,
    {
        if uuid_parse_ok(id.as_str()) {
            Ok(LoginAttemptId(id))
        } else {
            Err(String::from_str("Invalid UUID: ").concat(id.as_str()))
        }
    }

    pub fn as_str(&self) -> (r: &str)
        ensures
            r@ == self@,
    {
        self.0.as_str()
    }
}

impl Default for LoginAttemptId {
    /// A freshly generated random attempt identifier, in UUID form.
    fn default() -> (r: Self)
        ensures
            is_uuid(r@),
    {
        LoginAttemptId(new_uuid_string())
    }
}

impl Clone for LoginAttemptId {
    fn clone(&self) -> (r: Self)
        ensures
            r == *self,
    {
        LoginAttemptId(self.0.clone())
    }
}

impl PartialEq for LoginAttemptId {
    fn eq(&self, other: &LoginAttemptId) -> (r: bool)
    {
        self.0 == other.0
    }
}

impl vstd::std_specs::cmp::PartialEqSpecImpl for LoginAttemptId {
    open spec fn obeys_eq_spec() -> bool {
        true
    }

    open spec fn eq_spec(&self, other: &LoginAttemptId) -> bool {
        self@ == other@
    }
}

/// A two-factor code is a string of exactly six decimal digits.
pub open spec fn valid_code(s: Seq<char>) -> bool {
    s.len() == 6 && all_digits(s)
}

/// The six-digit numeric code of a pending challenge.
#[derive(Debug)]
pub struct TwoFACode(String);

impl View for TwoFACode {
    type V = Seq<char>;

    closed spec fn view(&self) -> Seq<char> {
        self.0@
    }
}

impl TwoFACode {
    /// Accepts exactly six-digit numeric strings and keeps them unchanged.
    pub fn parse(code: String) -> (r: Result<Self, String>)
        ensures
            r is Ok <==> valid_code(code@),
            r matches Ok(c) ==> c@ == code@,
            r matches Err(m) ==> m@ == "Invalid 2FA code: "@ + code@,
    {
        if code.as_str().unicode_len() == 6 && check_all_digits(code.as_str()) {
            Ok(TwoFACode(code))
        } else {
            Err(String::from_str("Invalid 2FA code: ").concat(code.as_str()))
        }
    }

    pub fn as_str(&self) -> (r: &str)
        ensures
            r@ == self@,
    {
        self.0.as_str()
    }
}

impl Default for TwoFACode {
    /// A freshly generated random six-digit code.
    fn default() -> (r: Self)
        ensures
            valid_code(r@),
    {
        let n = random_in_range(100000, 999999);
        proof {
            lemma_dec_digits_len6(n as nat);
            lemma_dec_digits_all_digits(n as nat);
        }
        TwoFACode(u64_to_string(n))
    }
}

impl Clone for TwoFACode {
    fn clone(&self) -> (r: Self)
        ensures
            r == *self,
    {
        TwoFACode(self.0.clone())
    }
}

impl PartialEq for TwoFACode {
    fn eq(&self, other: &TwoFACode) -> (r: bool)
    {
        self.0 == other.0
    }
}

impl vstd::std_specs::cmp::PartialEqSpecImpl for TwoFACode {
    open spec fn obeys_eq_spec() -> bool {
        true
    }

    open spec fn eq_spec(&self, other: &TwoFACode) -> bool {
        self@ == other@
    }
}

} // verus!

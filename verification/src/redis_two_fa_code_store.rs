//! Key layout of the networked challenge store: each pending challenge
//! lives under a prefixed key derived from the email, and expires with the
//! challenge TTL (applied by the backend).

use vstd::prelude::*;
use crate::email::Email;

verus! {

/// The storage key of the pending challenge for `email`.
pub fn get_key(email: &Email) -> (r: String)
    ensures
        r@ == "two_fa_code:"@ + email@,
{
    String::from_str("two_fa_code:").concat(email.as_str())
}

} // verus!

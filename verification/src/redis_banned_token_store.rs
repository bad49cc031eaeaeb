//! Key layout of the networked revocation store: each ban entry lives under
//! a prefixed key so entries cannot collide with other data, and carries a
//! TTL equal to the banned token's own lifetime (applied by the backend).

use vstd::prelude::*;

verus! {

/// The storage key of a ban entry for `token`.
pub fn get_key(token: &str) -> (r: String)
    ensures
        r@ == "banned_token:"@ + token@,
{
    String::from_str("banned_token:").concat(token)
}

} // verus!

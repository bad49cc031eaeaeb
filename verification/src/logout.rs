//! The logout flow: require the session credential, validate it, and revoke
//! it. Two racing logouts may both find the token valid; the duplicate ban
//! the loser then attempts is benign and the token stays revoked.

use vstd::prelude::*;
use crate::data_store::BannedTokenStore;
use crate::error::AuthAPIError;
use crate::token::{spec_token_valid, validate_token};

verus! {

/// Revokes the presented session token at time `now`. An absent credential
/// surfaces as `MissingToken`; one that is not live (malformed, forged,
/// expired or already revoked) as `InvalidToken`; a live one is added to the
/// revocation store, and the caller then discards its copy.
pub fn logout<B: BannedTokenStore>(
    banned_token_store: &mut B,
    cookie_token: Option<String>,
    now: u64,
    secret: &str,
) -> (r: Result<(), AuthAPIError>)
    requires
        old(banned_token_store).inv(),
    ensures
        final(banned_token_store).inv(),
        cookie_token is None ==> {
            &&& r matches Err(e) && e == AuthAPIError::MissingToken
            &&& final(banned_token_store).tokens() == old(banned_token_store).tokens()
        },
        cookie_token matches Some(t) ==> {
            &&& !spec_token_valid(t@, secret@, now, old(banned_token_store).tokens()) ==> {
                &&& r matches Err(e) && e == AuthAPIError::InvalidToken
                &&& final(banned_token_store).tokens() == old(banned_token_store).tokens()
            }
            &&& spec_token_valid(t@, secret@, now, old(banned_token_store).tokens()) ==> {
                &&& r is Ok
                &&& final(banned_token_store).tokens() == old(banned_token_store).tokens().insert(
                    t@,
                )
            }
        },
{
    let token = match cookie_token {
        Some(t) => t,
        None => {
            return Err(AuthAPIError::MissingToken);
        },
    };
    if validate_token(token.as_str(), banned_token_store, now, secret).is_none() {
        return Err(AuthAPIError::InvalidToken);
    }
    // a concurrent logout may have banned the token in the meantime; the
    // duplicate signal is not a failure of this flow
    let _ = banned_token_store.store_token(token);
    Ok(())
}

} // verus!

//! The token verification flow, used by downstream resource servers to
//! confirm that a presented token is still live. It never mutates anything.

use vstd::prelude::*;
use crate::data_store::BannedTokenStore;
use crate::error::AuthAPIError;
use crate::token::{spec_token_valid, validate_token};

verus! {

pub struct VerifyTokenRequest {
    pub token: String,
}

/// The body a resource server returns once the presented token has been
/// confirmed.
#[derive(Debug)]
pub struct ProtectedRouteResponse {
    pub img_url: String,
}

/// Succeeds exactly when the presented token is live at time `now`:
/// well-formed under the secret, unexpired and not revoked.
pub fn verify_token<B: BannedTokenStore>(
    banned_token_store: &B,
    request: VerifyTokenRequest,
    now: u64,
    secret: &str,
) -> (r: Result<(), AuthAPIError>)
    requires
        banned_token_store.inv(),
    ensures
        r is Ok <==> spec_token_valid(request.token@, secret@, now, banned_token_store.tokens()),
        r matches Err(e) ==> e == AuthAPIError::InvalidToken,
{
    match validate_token(request.token.as_str(), banned_token_store, now, secret) {
        Some(_claims) => Ok(()),
        None => Err(AuthAPIError::InvalidToken),
    }
}

} // verus!

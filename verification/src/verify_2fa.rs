//! The second-factor verification flow: match the submitted attempt
//! identifier and code against the pending challenge, consume the challenge,
//! and issue the session token.

use vstd::prelude::*;
use crate::data_store::{is_uuid, valid_code, LoginAttemptId, TwoFACode, TwoFACodeStore};
use crate::email::{valid_email, Email};
use crate::error::AuthAPIError;
use crate::token::{issue_token, token_for, TOKEN_TTL_SECONDS};

verus! {

pub struct Verify2FARequest {
    pub email: String,
    pub login_attempt_id: String,
    pub two_factor_code: String,
}

/// Verifies a pending challenge at time `now`. Inputs that do not parse
/// surface as `InvalidCredentials`; a missing challenge or any mismatch of
/// the pair surfaces as `IncorrectCredentials` and leaves the store as it
/// was; an exact match consumes the challenge and returns a token for the
/// subject.
pub fn verify_2fa<T: TwoFACodeStore>(
    two_fa_code_store: &mut T,
    request: Verify2FARequest,
    now: u64,
    secret: &str,
) -> (r: Result<String, AuthAPIError>)
    requires
        old(two_fa_code_store).inv(),
        now + TOKEN_TTL_SECONDS <= u64::MAX,
    ensures
        final(two_fa_code_store).inv(),
        !(valid_email(request.email@) && is_uuid(request.login_attempt_id@) && valid_code(
            request.two_factor_code@,
        )) ==> {
            &&& r matches Err(e) && e == AuthAPIError::InvalidCredentials
            &&& final(two_fa_code_store).codes() == old(two_fa_code_store).codes()
        },
        valid_email(request.email@) && is_uuid(request.login_attempt_id@) && valid_code(
            request.two_factor_code@,
        ) && !old(two_fa_code_store).codes().contains_key(request.email@) ==> {
            &&& r matches Err(e) && e == AuthAPIError::IncorrectCredentials
            &&& final(two_fa_code_store).codes() == old(two_fa_code_store).codes()
        },
        valid_email(request.email@) && is_uuid(request.login_attempt_id@) && valid_code(
            request.two_factor_code@,
        ) && old(two_fa_code_store).codes().contains_key(request.email@) && old(
            two_fa_code_store,
        ).codes()[request.email@] != (request.login_attempt_id@, request.two_factor_code@) ==> {
            &&& r matches Err(e) && e == AuthAPIError::IncorrectCredentials
            &&& final(two_fa_code_store).codes() == old(two_fa_code_store).codes()
        },
        valid_email(request.email@) && is_uuid(request.login_attempt_id@) && valid_code(
            request.two_factor_code@,
        ) && old(two_fa_code_store).codes().contains_key(request.email@) && old(
            two_fa_code_store,
        ).codes()[request.email@] == (request.login_attempt_id@, request.two_factor_code@) ==> {
            &&& r matches Ok(token) && token@ == token_for(
                request.email@,
                now,
                (now + TOKEN_TTL_SECONDS) as u64,
                secret@,
            )
            &&& final(two_fa_code_store).codes() == old(two_fa_code_store).codes().remove(
                request.email@,
            )
        },
{
    let email = match Email::parse(request.email) {
        Ok(e) => e,
        Err(_) => {
            return Err(AuthAPIError::InvalidCredentials);
        },
    };
    let login_attempt_id = match LoginAttemptId::parse(request.login_attempt_id) {
        Ok(l) => l,
        Err(_) => {
            return Err(AuthAPIError::InvalidCredentials);
        },
    };
    let two_fa_code = match TwoFACode::parse(request.two_factor_code) {
        Ok(c) => c,
        Err(_) => {
            return Err(AuthAPIError::InvalidCredentials);
        },
    };
    let (stored_login_attempt_id, stored_code) = match two_fa_code_store.get_code(&email) {
        Ok(p) => p,
        Err(_) => {
            return Err(AuthAPIError::IncorrectCredentials);
        },
    };
    if !(stored_login_attempt_id == login_attempt_id) || !(stored_code == two_fa_code) {
        return Err(AuthAPIError::IncorrectCredentials);
    }
    match two_fa_code_store.remove_code(&email) {
        Ok(()) => {},
        Err(_) => {
            return Err(AuthAPIError::UnexpectedError);
        },
    }
    Ok(issue_token(&email, now, secret))
}

} // verus!

//! The login flow: validate the submitted credentials, then either issue a
//! session token directly or open a two-factor challenge whose code the
//! caller delivers out of band.

use vstd::prelude::*;
use crate::data_store::{is_uuid, valid_code, LoginAttemptId, TwoFACode, TwoFACodeStore, UserStore};
use crate::email::{valid_email, Email};
use crate::error::AuthAPIError;
use crate::password::{valid_password, Password};
use crate::token::{issue_token, token_for, TOKEN_TTL_SECONDS};

verus! {

/// What a successful login hands back: a live session token, or a pending
/// challenge whose code must reach the user out of band before a token is
/// granted.
#[derive(Debug)]
pub enum LoginSuccess {
    LoggedIn { token: String },
    TwoFactorRequired { attempt_id: LoginAttemptId, code: TwoFACode },
}

/// The response body of a login that requires a second factor.
#[derive(Debug)]
pub struct TwoFactorAuthResponse {
    pub message: String,
    pub login_attempt_id: String,
}

impl TwoFactorAuthResponse {
    /// The body announcing a pending challenge; it carries the attempt
    /// identifier and never the code.
    pub fn new(attempt_id: &LoginAttemptId) -> (r: Self)
        ensures
            r.message@ == "2FA required"@,
            r.login_attempt_id@ == attempt_id@,
    {
        TwoFactorAuthResponse {
            message: String::from_str("2FA required"),
            login_attempt_id: String::from_str(attempt_id.as_str()),
        }
    }
}

/// The two possible success response bodies of the login route.
#[derive(Debug)]
pub enum LoginResponse {
    RegularAuth,
    TwoFactorAuth(TwoFactorAuthResponse),
}

pub struct LoginRequest {
    pub email: String,
    pub password: String,
}

fn handle_2fa<T: TwoFACodeStore>(two_fa_code_store: &mut T, email: &Email) -> (r: Result<
    LoginSuccess,
    AuthAPIError,
>)
    requires
        old(two_fa_code_store).inv(),
    ensures
        final(two_fa_code_store).inv(),
        r matches Ok(LoginSuccess::TwoFactorRequired { attempt_id, code }) && {
            &&& is_uuid(attempt_id@)
            &&& valid_code(code@)
            &&& final(two_fa_code_store).codes() == old(two_fa_code_store).codes().insert(
                email@,
                (attempt_id@, code@),
            )
        },
{
    let login_attempt_id = LoginAttemptId::default();
    let two_fa_code = TwoFACode::default();
    match two_fa_code_store.add_code(email, &login_attempt_id, &two_fa_code) {
        Ok(()) => {},
        Err(_) => {
            return Err(AuthAPIError::UnexpectedError);
        },
    }
    Ok(LoginSuccess::TwoFactorRequired { attempt_id: login_attempt_id, code: two_fa_code })
}

fn handle_no_2fa(email: &Email, now: u64, secret: &str) -> (r: Result<LoginSuccess, AuthAPIError>)
    requires
        now + TOKEN_TTL_SECONDS <= u64::MAX,
    ensures
        r matches Ok(LoginSuccess::LoggedIn { token }) && token@ == token_for(
            email@,
            now,
            (now + TOKEN_TTL_SECONDS) as u64,
            secret@,
        ),
{
    let token = issue_token(email, now, secret);
    Ok(LoginSuccess::LoggedIn { token })
}

/// Authenticates the submitted credentials at time `now`. Malformed inputs
/// surface as `MalformedInput`, an unknown email as `InvalidCredentials`, a
/// wrong password as `IncorrectCredentials`. On success, either a token for
/// exactly this subject is issued, or a fresh challenge replaces whatever
/// challenge the email had pending.
pub fn login<U: UserStore, T: TwoFACodeStore>(
    user_store: &U,
    two_fa_code_store: &mut T,
    request: LoginRequest,
    now: u64,
    secret: &str,
) -> (r: Result<LoginSuccess, AuthAPIError>)
    requires
        user_store.inv(),
        old(two_fa_code_store).inv(),
        now + TOKEN_TTL_SECONDS <= u64::MAX,
    ensures
        final(two_fa_code_store).inv(),
        !(valid_email(request.email@) && valid_password(request.password@)) ==> {
            &&& r matches Err(e) && e == AuthAPIError::MalformedInput
            &&& final(two_fa_code_store).codes() == old(two_fa_code_store).codes()
        },
        valid_email(request.email@) && valid_password(request.password@) && !user_store.users().contains_key(
            request.email@,
        ) ==> {
            &&& r matches Err(e) && e == AuthAPIError::InvalidCredentials
            &&& final(two_fa_code_store).codes() == old(two_fa_code_store).codes()
        },
        valid_email(request.email@) && valid_password(request.password@)
            && user_store.users().contains_key(request.email@) && user_store.users()[request.email@].password
            != request.password@ ==> {
            &&& r matches Err(e) && e == AuthAPIError::IncorrectCredentials
            &&& final(two_fa_code_store).codes() == old(two_fa_code_store).codes()
        },
        valid_email(request.email@) && valid_password(request.password@)
            && user_store.users().contains_key(request.email@) && user_store.users()[request.email@].password
            == request.password@ && !user_store.users()[request.email@].requires_2fa ==> {
            &&& r matches Ok(LoginSuccess::LoggedIn { token }) && token@ == token_for(
                request.email@,
                now,
                (now + TOKEN_TTL_SECONDS) as u64,
                secret@,
            )
            &&& final(two_fa_code_store).codes() == old(two_fa_code_store).codes()
        },
        valid_email(request.email@) && valid_password(request.password@)
            && user_store.users().contains_key(request.email@) && user_store.users()[request.email@].password
            == request.password@ && user_store.users()[request.email@].requires_2fa ==> {
            r matches Ok(LoginSuccess::TwoFactorRequired { attempt_id, code }) && {
                &&& is_uuid(attempt_id@)
                &&& valid_code(code@)
                &&& final(two_fa_code_store).codes() == old(two_fa_code_store).codes().insert(
                    request.email@,
                    (attempt_id@, code@),
                )
            }
        },
{
    let email = match Email::parse(request.email) {
        Ok(e) => e,
        Err(_) => {
            return Err(AuthAPIError::MalformedInput);
        },
    };
    let password = match Password::parse(request.password) {
        Ok(p) => p,
        Err(_) => {
            return Err(AuthAPIError::MalformedInput);
        },
    };
    let user = match user_store.get_user(&email) {
        Ok(u) => u,
        Err(_) => {
            return Err(AuthAPIError::InvalidCredentials);
        },
    };
    if user_store.validate_user(&email, &password).is_err() {
        return Err(AuthAPIError::IncorrectCredentials);
    }
    if user.requires_2fa {
        handle_2fa(two_fa_code_store, &email)
    } else {
        handle_no_2fa(&email, now, secret)
    }
}

} // verus!

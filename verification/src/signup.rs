//! The signup flow: parse the submitted email and password, refuse an email
//! that is already registered, and otherwise create the user record.

use vstd::prelude::*;
use crate::data_store::UserStore;
use crate::email::{valid_email, Email};
use crate::error::AuthAPIError;
use crate::password::{valid_password, Password};
use crate::user::{User, UserView};

verus! {

pub struct SignupRequest {
    pub email: String,
    pub password: String,
    pub requires_2fa: bool,
}

#[derive(Debug)]
pub struct SignupResponse {
    pub message: String,
}

/// Registers a new user. Rejected email or password shapes surface as
/// `InvalidCredentials`; an email already present surfaces as
/// `UserAlreadyExists`, whatever the backend; otherwise the record is added
/// exactly once.
pub fn signup<U: UserStore>(user_store: &mut U, request: SignupRequest) -> (r: Result<
    SignupResponse,
    AuthAPIError,
>)
    requires
        old(user_store).inv(),
    ensures
        final(user_store).inv(),
        !(valid_email(request.email@) && valid_password(request.password@)) ==> {
            &&& r matches Err(e) && e == AuthAPIError::InvalidCredentials
            &&& final(user_store).users() == old(user_store).users()
        },
        valid_email(request.email@) && valid_password(request.password@) && old(
            user_store,
        ).users().contains_key(request.email@) ==> {
            &&& r matches Err(e) && e == AuthAPIError::UserAlreadyExists
            &&& final(user_store).users() == old(user_store).users()
        },
        valid_email(request.email@) && valid_password(request.password@) && !old(
            user_store,
        ).users().contains_key(request.email@) ==> {
            &&& r matches Ok(resp) && resp.message@ == "User created successfully!"@
            &&& final(user_store).users() == old(user_store).users().insert(
                request.email@,
                UserView {
                    email: request.email@,
                    password: request.password@,
                    requires_2fa: request.requires_2fa,
                },
            )
        },
{
    let email = match Email::parse(request.email) {
        Ok(e) => e,
        Err(_) => {
            return Err(AuthAPIError::InvalidCredentials);
        },
    };
    let password = match Password::parse(request.password) {
        Ok(p) => p,
        Err(_) => {
            return Err(AuthAPIError::InvalidCredentials);
        },
    };
    if user_store.get_user(&email).is_ok() {
        return Err(AuthAPIError::UserAlreadyExists);
    }
    let user = User::new(email, password, request.requires_2fa);
    match user_store.add_user(user) {
        Ok(()) => {},
        Err(_) => {
            return Err(AuthAPIError::UnexpectedError);
        },
    }
    Ok(SignupResponse { message: String::from_str("User created successfully!") })
}

} // verus!

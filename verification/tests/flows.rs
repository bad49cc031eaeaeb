use auth_service::banned_token_store::HashsetBannedTokenStore;
use auth_service::data_store::{BannedTokenStore, TwoFACodeStore};
use auth_service::error::AuthAPIError;
use auth_service::hashmap_two_fa_code_store::HashmapTwoFACodeStore;
use auth_service::hashmap_user_store::HashmapUserStore;
use auth_service::login::{login, LoginRequest, LoginSuccess, TwoFactorAuthResponse};
use auth_service::logout::logout;
use auth_service::signup::{signup, SignupRequest};
use auth_service::verify_2fa::{verify_2fa, Verify2FARequest};
use auth_service::verify_token::{verify_token, VerifyTokenRequest};

const NOW: u64 = 1_000;
const SECRET: &str = "test-secret";

fn signup_request(email: &str, password: &str, requires_2fa: bool) -> SignupRequest {
    SignupRequest {
        email: email.to_string(),
        password: password.to_string(),
        requires_2fa,
    }
}

fn login_request(email: &str, password: &str) -> LoginRequest {
    LoginRequest {
        email: email.to_string(),
        password: password.to_string(),
    }
}

#[test]
fn should_return_201_if_valid_input() {
    let mut users = HashmapUserStore::default();
    let response = signup(
        &mut users,
        signup_request("test@example.com", "password123", true),
    )
    .unwrap();
    assert_eq!(response.message, "User created successfully!".to_string());
}

#[test]
fn signup_should_return_400_if_invalid_input() {
    let mut users = HashmapUserStore::default();
    let bad_email = signup(
        &mut users,
        signup_request("invalid-email-format", "password123", true),
    )
    .unwrap_err();
    assert_eq!(bad_email.status_code(), 400);
    assert_eq!(bad_email.message(), "Invalid credentials".to_string());
    let bad_password = signup(&mut users, signup_request("test@example.com", "short", true))
        .unwrap_err();
    assert_eq!(bad_password, AuthAPIError::InvalidCredentials);
    assert_eq!(bad_password.status_code(), 400);
}

#[test]
fn should_return_409_if_email_already_exists() {
    let mut users = HashmapUserStore::default();
    signup(
        &mut users,
        signup_request("test@example.com", "password123", true),
    )
    .unwrap();
    let err = signup(
        &mut users,
        signup_request("test@example.com", "password123", true),
    )
    .unwrap_err();
    assert_eq!(err, AuthAPIError::UserAlreadyExists);
    assert_eq!(err.status_code(), 409);
}

#[test]
fn should_return_422_if_malformed_credentials() {
    let users = HashmapUserStore::default();
    let mut codes = HashmapTwoFACodeStore::default();
    let err = login(
        &users,
        &mut codes,
        login_request("invalid_email", "invalid_password"),
        NOW,
        SECRET,
    )
    .unwrap_err();
    assert_eq!(err, AuthAPIError::MalformedInput);
    assert_eq!(err.status_code(), 422);
}

#[test]
fn login_should_return_400_if_invalid_input() {
    let users = HashmapUserStore::default();
    let mut codes = HashmapTwoFACodeStore::default();
    let err = login(
        &users,
        &mut codes,
        login_request("nonexistent@example.com", "password123!"),
        NOW,
        SECRET,
    )
    .unwrap_err();
    assert_eq!(err, AuthAPIError::InvalidCredentials);
    assert_eq!(err.status_code(), 400);
}

#[test]
fn login_should_return_401_if_incorrect_credentials() {
    let mut users = HashmapUserStore::default();
    let mut codes = HashmapTwoFACodeStore::default();
    signup(
        &mut users,
        signup_request("testPerson12@example.com", "password123!", false),
    )
    .unwrap();
    let err = login(
        &users,
        &mut codes,
        login_request("testPerson12@example.com", "wrongpassword"),
        NOW,
        SECRET,
    )
    .unwrap_err();
    assert_eq!(err, AuthAPIError::IncorrectCredentials);
    assert_eq!(err.status_code(), 401);
}

#[test]
fn should_return_200_if_valid_credentials_and_2fa_disabled() {
    let mut users = HashmapUserStore::default();
    let mut codes = HashmapTwoFACodeStore::default();
    let banned = HashsetBannedTokenStore::default();
    signup(
        &mut users,
        signup_request("test@example.com", "password123", false),
    )
    .unwrap();
    let success = login(
        &users,
        &mut codes,
        login_request("test@example.com", "password123"),
        NOW,
        SECRET,
    )
    .unwrap();
    match success {
        LoginSuccess::LoggedIn { token } => {
            assert!(!token.is_empty());
            verify_token(&banned, VerifyTokenRequest { token }, NOW, SECRET).unwrap();
        }
        LoginSuccess::TwoFactorRequired { .. } => panic!("No auth cookie found"),
    }
}

#[test]
fn should_return_206_if_valid_credentials_and_2fa_enabled() {
    let mut users = HashmapUserStore::default();
    let mut codes = HashmapTwoFACodeStore::default();
    signup(
        &mut users,
        signup_request("test@example.com", "password123", true),
    )
    .unwrap();
    let success = login(
        &users,
        &mut codes,
        login_request("test@example.com", "password123"),
        NOW,
        SECRET,
    )
    .unwrap();
    match success {
        LoginSuccess::TwoFactorRequired { attempt_id, .. } => {
            let body = TwoFactorAuthResponse::new(&attempt_id);
            assert_eq!(body.message, "2FA required".to_string());
            assert_eq!(body.login_attempt_id, attempt_id.as_str().to_string());
        }
        LoginSuccess::LoggedIn { .. } => {
            panic!("Could not deserialize response body to TwoFactorAuthResponse")
        }
    }
}

#[test]
fn should_return_400_if_jwt_cookie_missing() {
    let mut banned = HashsetBannedTokenStore::default();
    let err = logout(&mut banned, None, NOW, SECRET).unwrap_err();
    assert_eq!(err, AuthAPIError::MissingToken);
    assert_eq!(err.status_code(), 400);
}

#[test]
fn logout_should_return_401_if_invalid_token() {
    let mut banned = HashsetBannedTokenStore::default();
    let err = logout(&mut banned, Some("invalid".to_string()), NOW, SECRET).unwrap_err();
    assert_eq!(err, AuthAPIError::InvalidToken);
    assert_eq!(err.status_code(), 401);
}

#[test]
fn should_return_200_if_valid_jwt_cookie() {
    let mut users = HashmapUserStore::default();
    let mut codes = HashmapTwoFACodeStore::default();
    let mut banned = HashsetBannedTokenStore::default();
    signup(
        &mut users,
        signup_request("test@test.com", "password123", false),
    )
    .unwrap();
    let success = login(
        &users,
        &mut codes,
        login_request("test@test.com", "password123"),
        NOW,
        SECRET,
    )
    .unwrap();
    let token = match success {
        LoginSuccess::LoggedIn { token } => token,
        LoginSuccess::TwoFactorRequired { .. } => panic!("No auth cookie found"),
    };
    verify_token(
        &banned,
        VerifyTokenRequest { token: token.clone() },
        NOW,
        SECRET,
    )
    .unwrap();
    logout(&mut banned, Some(token.clone()), NOW, SECRET).unwrap();
    assert!(banned.is_token_banned(token.as_str()).unwrap());
    let err = verify_token(&banned, VerifyTokenRequest { token }, NOW, SECRET).unwrap_err();
    assert_eq!(err, AuthAPIError::InvalidToken);
    assert_eq!(err.status_code(), 401);
}

#[test]
fn should_return_400_if_logout_called_twice_in_a_row() {
    let mut users = HashmapUserStore::default();
    let mut codes = HashmapTwoFACodeStore::default();
    let mut banned = HashsetBannedTokenStore::default();
    signup(
        &mut users,
        signup_request("test@test.com", "password123", false),
    )
    .unwrap();
    let token = match login(
        &users,
        &mut codes,
        login_request("test@test.com", "password123"),
        NOW,
        SECRET,
    )
    .unwrap()
    {
        LoginSuccess::LoggedIn { token } => token,
        LoginSuccess::TwoFactorRequired { .. } => panic!("No auth cookie found"),
    };
    logout(&mut banned, Some(token), NOW, SECRET).unwrap();
    // the first logout removed the caller's cookie, so the second request
    // arrives with no credential at all
    let err = logout(&mut banned, None, NOW, SECRET).unwrap_err();
    assert_eq!(err, AuthAPIError::MissingToken);
    assert_eq!(err.status_code(), 400);
}

#[test]
fn verify_2fa_returns_200() {
    let mut users = HashmapUserStore::default();
    let mut codes = HashmapTwoFACodeStore::default();
    let banned = HashsetBannedTokenStore::default();
    signup(
        &mut users,
        signup_request("test@example.com", "password123", true),
    )
    .unwrap();
    match login(
        &users,
        &mut codes,
        login_request("test@example.com", "password123"),
        NOW,
        SECRET,
    )
    .unwrap()
    {
        LoginSuccess::TwoFactorRequired { .. } => {}
        LoginSuccess::LoggedIn { .. } => panic!("Failed to parse response"),
    }
    // fetch the stored pair, as the orchestrator would
    let (attempt_id, code) = codes
        .get_code(&auth_service::email::Email::parse("test@example.com".to_string()).unwrap())
        .unwrap();
    let token = verify_2fa(
        &mut codes,
        Verify2FARequest {
            email: "test@example.com".to_string(),
            login_attempt_id: attempt_id.as_str().to_string(),
            two_factor_code: code.as_str().to_string(),
        },
        NOW,
        SECRET,
    )
    .unwrap();
    verify_token(&banned, VerifyTokenRequest { token }, NOW, SECRET).unwrap();
}

#[test]
fn verify_2fa_should_return_400_if_invalid_input() {
    let mut codes = HashmapTwoFACodeStore::default();
    let err = verify_2fa(
        &mut codes,
        Verify2FARequest {
            email: "invalid-email-format".to_string(),
            login_attempt_id: "invalid-login-attempt-id".to_string(),
            two_factor_code: "invalid-two-factor-code".to_string(),
        },
        NOW,
        SECRET,
    )
    .unwrap_err();
    assert_eq!(err, AuthAPIError::InvalidCredentials);
    assert_eq!(err.status_code(), 400);
}

#[test]
fn verify_2fa_should_return_401_if_incorrect_credentials() {
    let mut codes = HashmapTwoFACodeStore::default();
    let err = verify_2fa(
        &mut codes,
        Verify2FARequest {
            email: "test@example.com".to_string(),
            login_attempt_id: "123e4567-e89b-12d3-a456-426614174000".to_string(),
            two_factor_code: "123456".to_string(),
        },
        NOW,
        SECRET,
    )
    .unwrap_err();
    assert_eq!(err, AuthAPIError::IncorrectCredentials);
    assert_eq!(err.status_code(), 401);
}

#[test]
fn should_return_401_if_old_code() {
    let mut users = HashmapUserStore::default();
    let mut codes = HashmapTwoFACodeStore::default();
    signup(
        &mut users,
        signup_request("test123@example.com", "password123", true),
    )
    .unwrap();
    let (first_id, first_code) = match login(
        &users,
        &mut codes,
        login_request("test123@example.com", "password123"),
        NOW,
        SECRET,
    )
    .unwrap()
    {
        LoginSuccess::TwoFactorRequired { attempt_id, code } => (attempt_id, code),
        LoginSuccess::LoggedIn { .. } => panic!("Failed to parse response"),
    };
    // a second login supersedes the pending challenge
    login(
        &users,
        &mut codes,
        login_request("test123@example.com", "password123"),
        NOW,
        SECRET,
    )
    .unwrap();
    let err = verify_2fa(
        &mut codes,
        Verify2FARequest {
            email: "test123@example.com".to_string(),
            login_attempt_id: first_id.as_str().to_string(),
            two_factor_code: first_code.as_str().to_string(),
        },
        NOW,
        SECRET,
    )
    .unwrap_err();
    assert_eq!(err, AuthAPIError::IncorrectCredentials);
    assert_eq!(err.status_code(), 401);
}

#[test]
fn should_return_401_if_same_code_twice() {
    let mut users = HashmapUserStore::default();
    let mut codes = HashmapTwoFACodeStore::default();
    signup(
        &mut users,
        signup_request("test123@example.com", "password123", true),
    )
    .unwrap();
    let (attempt_id, code) = match login(
        &users,
        &mut codes,
        login_request("test123@example.com", "password123"),
        NOW,
        SECRET,
    )
    .unwrap()
    {
        LoginSuccess::TwoFactorRequired { attempt_id, code } => (attempt_id, code),
        LoginSuccess::LoggedIn { .. } => panic!("Failed to parse response"),
    };
    let request = |id: &str, c: &str| Verify2FARequest {
        email: "test123@example.com".to_string(),
        login_attempt_id: id.to_string(),
        two_factor_code: c.to_string(),
    };
    verify_2fa(
        &mut codes,
        request(attempt_id.as_str(), code.as_str()),
        NOW,
        SECRET,
    )
    .unwrap();
    let err = verify_2fa(
        &mut codes,
        request(attempt_id.as_str(), code.as_str()),
        NOW,
        SECRET,
    )
    .unwrap_err();
    assert_eq!(err, AuthAPIError::IncorrectCredentials);
    assert_eq!(err.status_code(), 401);
}

#[test]
fn verify_token_returns_200() {
    let mut users = HashmapUserStore::default();
    let mut codes = HashmapTwoFACodeStore::default();
    let banned = HashsetBannedTokenStore::default();
    signup(
        &mut users,
        signup_request("test@example.com", "password123", false),
    )
    .unwrap();
    let token = match login(
        &users,
        &mut codes,
        login_request("test@example.com", "password123"),
        NOW,
        SECRET,
    )
    .unwrap()
    {
        LoginSuccess::LoggedIn { token } => token,
        LoginSuccess::TwoFactorRequired { .. } => panic!("No auth cookie found"),
    };
    verify_token(&banned, VerifyTokenRequest { token }, NOW, SECRET).unwrap();
}

#[test]
fn verify_token_should_return_401_if_invalid_token() {
    let banned = HashsetBannedTokenStore::default();
    let err = verify_token(
        &banned,
        VerifyTokenRequest { token: "invalid_token".to_string() },
        NOW,
        SECRET,
    )
    .unwrap_err();
    assert_eq!(err, AuthAPIError::InvalidToken);
    assert_eq!(err.status_code(), 401);
}

#[test]
fn error_taxonomy_maps_to_status_and_message() {
    assert_eq!(AuthAPIError::UserAlreadyExists.status_code(), 409);
    assert_eq!(AuthAPIError::InvalidCredentials.status_code(), 400);
    assert_eq!(AuthAPIError::MalformedInput.status_code(), 422);
    assert_eq!(AuthAPIError::IncorrectCredentials.status_code(), 401);
    assert_eq!(AuthAPIError::UnexpectedError.status_code(), 500);
    assert_eq!(AuthAPIError::MissingToken.status_code(), 400);
    assert_eq!(AuthAPIError::InvalidToken.status_code(), 401);
    assert_eq!(
        AuthAPIError::UserAlreadyExists.message(),
        "User already exists".to_string()
    );
    assert_eq!(
        AuthAPIError::MalformedInput.message(),
        "Malformed input".to_string()
    );
    assert_eq!(
        AuthAPIError::UnexpectedError.message(),
        "Unexpected error".to_string()
    );
}

//! Session-integrity subsystem: credential, revocation and challenge stores,
//! token issuance and validation, and the session flows built on them.

pub mod banned_token_store;
pub mod data_store;
pub mod digits;
pub mod email;
pub mod error;
pub mod hashmap_two_fa_code_store;
pub mod hashmap_user_store;
pub mod laws;
pub mod login;
pub mod logout;
pub mod password;
pub mod redis_banned_token_store;
pub mod redis_two_fa_code_store;
pub mod signup;
pub mod token;
pub mod user;
pub mod verify_2fa;
pub mod verify_token;

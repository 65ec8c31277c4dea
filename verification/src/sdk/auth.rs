//! Requests and answers of the user and token routes.

use vstd::prelude::*;

verus! {

/// A registration request.
#[derive(Debug, Clone, PartialEq, Eq)]
pub struct RegisterRequest {
    pub username: String,
    pub password: String,
    pub email: String,
}

/// A login request.
#[derive(Debug, Clone, PartialEq, Eq)]
pub struct LoginRequest {
    pub username: String,
    pub password: String,
}

/// The answer to a login.
#[derive(Debug, Clone, PartialEq, Eq)]
pub struct LoginResponse {
    pub user_id: String,
    pub username: String,
    pub email: String,
    pub role: String,
    pub jwt_token: String,
    pub expires_at: String,
}

/// A request for a notify token.
#[derive(Debug, Clone, PartialEq, Eq)]
pub struct CreateTokenRequest {
    pub usage: String,
    pub expires_in_hours: Option<u64>,
    pub device_info: Option<String>,
}

/// The answer to a request for a notify token.
#[derive(Debug, Clone, PartialEq, Eq)]
pub struct CreateTokenResponse {
    pub token: String,
    pub token_id: String,
    pub usage: String,
    pub token_type: String,
    pub expires_at: String,
}

/// A stored token as the server shows it.
#[derive(Debug, Clone, PartialEq, Eq)]
pub struct TokenInfo {
    pub id: i32,
    pub usage: String,
    pub token_type: String,
    pub device_info: Option<String>,
    pub created_at: String,
    pub expires_at: String,
    pub last_used_at: Option<String>,
}

/// The lifetime, in hours, that a client asks for where it is not told another.
pub const NOTIFY_TOKEN_HOURS: u64 = 24;

/// The request that a client makes for a notify token of its own.
pub fn notify_token_request(usage: &str, device_info: Option<String>) -> (request:
    CreateTokenRequest)
    ensures
        request.usage@ == usage@,
        request.expires_in_hours == Some(NOTIFY_TOKEN_HOURS),
        request.device_info == device_info,
{
    CreateTokenRequest {
        usage: String::from_str(usage),
        expires_in_hours: Some(NOTIFY_TOKEN_HOURS),
        device_info,
    }
}

} // verus!

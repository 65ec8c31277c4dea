//! The token and user commands of the command-line programs.

use vstd::prelude::*;

verus! {

/// The lifetime, in hours, of a token where the command names none.
pub const DEFAULT_EXPIRY_HOURS: u64 = 24;

/// How much of a token is shown when it is set.
pub const PREVIEW_LENGTH: usize = 20;

/// What to do about the notify token.
#[derive(Debug, Clone, PartialEq, Eq)]
pub enum TokenAction {
    /// Create a new token.
    Create { usage: String, expires_in: u64 },
    /// Set the token for authentication.
    SetToken { token: String },
    /// Clear the stored token.
    Clear,
    /// Show whether a token is configured.
    Status,
}

/// What to do about the user.
#[derive(Debug, Clone, PartialEq, Eq)]
pub enum AuthAction {
    /// Register a new user.
    Register { username: String, password: String, email: String },
    /// Log in with username and password.
    Login { username: String, password: String },
    /// Get the current user's profile.
    Profile,
    /// Create a new notification token.
    CreateToken { usage: String, device: Option<String>, expires: u64 },
    /// List the user's tokens.
    ListTokens,
    /// Delete a token.
    DeleteToken { id: i32 },
}

impl AuthAction {
    /// Whether the action needs the user to be logged in.
    pub fn needs_user_token(&self) -> (needed: bool)
        ensures
            needed == !(self is Register || self is Login),
    {
        match self {
            AuthAction::Register { .. } => false,
            AuthAction::Login { .. } => false,
            _ => true,
        }
    }
}

/// The beginning of a token that is shown: its first twenty characters, or
/// all of it where it has fewer.
pub open spec fn preview(token: Seq<char>) -> Seq<char> {
    if token.len() <= PREVIEW_LENGTH {
        token
    } else {
        token.take(PREVIEW_LENGTH as int)
    }
}

/// The beginning of a token that is shown when it is set.
pub fn token_preview(token: &str) -> (shown: String)
    ensures
        shown@ == preview(token@),
{
    let length = token.unicode_len();
    if length <= PREVIEW_LENGTH {
        String::from_str(token)
    } else {
        let head = token.substring_char(0, PREVIEW_LENGTH);
        String::from_str(head)
    }
}

} // verus!

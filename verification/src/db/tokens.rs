//! Token records.

use crate::codec::TokenKind;
use crate::text::copy_optional_text;
use vstd::prelude::*;

verus! {

/// The kind of a stored token.
#[derive(Debug, Clone, Copy, PartialEq, Eq, Structural)]
pub enum TokenType {
    UserJwt,
    NotifyBearer,
}

impl TokenType {
    /// The kind of signed claims that belongs to a stored kind.
    pub open spec fn kind(self) -> TokenKind {
        match self {
            TokenType::UserJwt => TokenKind::UserSession,
            TokenType::NotifyBearer => TokenKind::NotifyBearer,
        }
    }

    /// The kind of signed claims that belongs to a stored kind.
    pub fn to_kind(&self) -> (kind: TokenKind)
        ensures
            kind == self.kind(),
    {
        match self {
            TokenType::UserJwt => TokenKind::UserSession,
            TokenType::NotifyBearer => TokenKind::NotifyBearer,
        }
    }

    /// The text under which the kind is stored and shown.
    pub fn as_str(&self) -> (name: &'static str)
        ensures
            name@ == self.kind().tag(),
    {
        match self {
            TokenType::UserJwt => "user_jwt",
            TokenType::NotifyBearer => "notify_bearer",
        }
    }
}

/// The record of one issued token. It holds the digest of the bearer string,
/// never the string. Times are seconds since the epoch.
#[derive(Debug, Clone, PartialEq, Eq)]
pub struct Model {
    pub id: i32,
    pub token_hash: String,
    pub usage: String,
    pub token_type: TokenType,
    pub user_id: Option<u128>,
    pub device_info: Option<String>,
    pub created_at: i64,
    pub expires_at: i64,
    pub last_used_at: Option<i64>,
}

/// A token record with its texts as sequences of characters.
pub struct ModelView {
    pub id: i32,
    pub token_hash: Seq<char>,
    pub usage: Seq<char>,
    pub token_type: TokenType,
    pub user_id: Option<u128>,
    pub device_info: Option<Seq<char>>,
    pub created_at: i64,
    pub expires_at: i64,
    pub last_used_at: Option<i64>,
}

impl View for Model {
    type V = ModelView;

    open spec fn view(&self) -> ModelView {
        ModelView {
            id: self.id,
            token_hash: self.token_hash@,
            usage: self.usage@,
            token_type: self.token_type,
            user_id: self.user_id,
            device_info: match self.device_info {
                Some(text) => Some(text@),
                None => None,
            },
            created_at: self.created_at,
            expires_at: self.expires_at,
            last_used_at: self.last_used_at,
        }
    }
}

impl ModelView {
    /// A record counts only while its expiry lies after `now`.
    pub open spec fn live_at(self, now: i64) -> bool {
        self.expires_at > now
    }
}

impl Model {
    /// A copy of the record.
    pub fn duplicate(&self) -> (copy: Model)
        ensures
            copy@ == self@,
    {
        Model {
            id: self.id,
            token_hash: self.token_hash.clone(),
            usage: self.usage.clone(),
            token_type: self.token_type,
            user_id: self.user_id,
            device_info: copy_optional_text(&self.device_info),
            created_at: self.created_at,
            expires_at: self.expires_at,
            last_used_at: self.last_used_at,
        }
    }

    /// Whether the record still counts at `now`: expiry is a test made when
    /// the record is read, and changes nothing.
    pub fn is_live_at(&self, now: i64) -> (live: bool)
        ensures
            live == self@.live_at(now),
    {
        self.expires_at > now
    }
}

} // verus!

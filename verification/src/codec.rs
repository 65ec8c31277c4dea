//! Signed tokens: claims written as a JSON object, signed with a shared secret
//! (HS256) by `jsonwebtoken`, and read back with the checks on expiry and kind.

use crate::db::users::{lemma_role_name_round_trip, role_named, UserRole};
use crate::error::{AuthError, ConfigError};
use crate::json::{
    integer_at, json_insert_integer, json_insert_text, json_integer_member, json_members,
    json_object_new, json_text_member, plain_members, text_at, JsonMember, JsonObject,
};
use crate::text::text_eq;
use vstd::prelude::*;
use vstd::string::StringSliceAdditionalSpecFns;

verus! {

/// `jsonwebtoken::errors::Error`: why a token was not made or not read.
/// Nothing is known of what is inside.
#[verifier::external_type_specification]
#[verifier::external_body]
pub struct ExJwtError(jsonwebtoken::errors::Error);

/// Seconds by which a verifier's clock may run ahead of the issuer's.
pub const LEEWAY_SECONDS: i64 = 60;

/// The least length, in bytes, of a signing secret.
pub const MIN_SECRET_BYTES: usize = 32;

/// What a token authorizes.
#[derive(Debug, Clone, Copy, PartialEq, Eq, Structural)]
pub enum TokenKind {
    /// Notification ingestion and subscription for one usage or device.
    NotifyBearer,
    /// An authenticated user's API calls.
    UserSession,
}

impl TokenKind {
    /// The tag that claims of this kind carry.
    pub open spec fn tag(self) -> Seq<char> {
        match self {
            TokenKind::NotifyBearer => "notify_bearer"@,
            TokenKind::UserSession => "user_jwt"@,
        }
    }

    /// The tag that claims of this kind carry.
    pub fn as_str(&self) -> (tag: &'static str)
        ensures
            tag@ == self.tag(),
    {
        match self {
            TokenKind::NotifyBearer => "notify_bearer",
            TokenKind::UserSession => "user_jwt",
        }
    }
}

/// Claims of a notify token.
#[derive(Debug, Clone, PartialEq, Eq)]
pub struct TokenClaims {
    /// Token id.
    pub sub: String,
    /// What the token is for.
    pub usage: String,
    /// Kind tag.
    pub token_type: String,
    /// Issued at, seconds since the epoch.
    pub iat: i64,
    /// Expires at, seconds since the epoch.
    pub exp: i64,
    /// Unique id of this signing.
    pub jti: String,
}

/// `TokenClaims` over sequences of characters.
pub struct TokenClaimsView {
    pub sub: Seq<char>,
    pub usage: Seq<char>,
    pub token_type: Seq<char>,
    pub iat: int,
    pub exp: int,
    pub jti: Seq<char>,
}

impl View for TokenClaims {
    type V = TokenClaimsView;

    open spec fn view(&self) -> TokenClaimsView {
        TokenClaimsView {
            sub: self.sub@,
            usage: self.usage@,
            token_type: self.token_type@,
            iat: self.iat as int,
            exp: self.exp as int,
            jti: self.jti@,
        }
    }
}

/// Claims of a user session token.
#[derive(Debug, Clone, PartialEq, Eq)]
pub struct UserClaims {
    /// User id.
    pub sub: String,
    pub username: String,
    pub role: UserRole,
    pub iat: i64,
    pub exp: i64,
    pub jti: String,
    /// Kind tag.
    pub token_type: String,
}

/// `UserClaims` over sequences of characters.
pub struct UserClaimsView {
    pub sub: Seq<char>,
    pub username: Seq<char>,
    pub role: UserRole,
    pub iat: int,
    pub exp: int,
    pub jti: Seq<char>,
    pub token_type: Seq<char>,
}

impl View for UserClaims {
    type V = UserClaimsView;

    open spec fn view(&self) -> UserClaimsView {
        UserClaimsView {
            sub: self.sub@,
            username: self.username@,
            role: self.role,
            iat: self.iat as int,
            exp: self.exp as int,
            jti: self.jti@,
            token_type: self.token_type@,
        }
    }
}

/// Claims of either kind, told apart by a tag.
#[derive(Debug, Clone, PartialEq, Eq)]
pub enum SignedClaims {
    Notify(TokenClaims),
    User(UserClaims),
}

/// `SignedClaims` over sequences of characters.
pub enum SignedClaimsView {
    Notify(TokenClaimsView),
    User(UserClaimsView),
}

impl View for SignedClaims {
    type V = SignedClaimsView;

    open spec fn view(&self) -> SignedClaimsView {
        match self {
            SignedClaims::Notify(claims) => SignedClaimsView::Notify(claims@),
            SignedClaims::User(claims) => SignedClaimsView::User(claims@),
        }
    }
}

impl SignedClaimsView {
    /// The kind that the shape of the claims stands for.
    pub open spec fn kind(self) -> TokenKind {
        match self {
            SignedClaimsView::Notify(_) => TokenKind::NotifyBearer,
            SignedClaimsView::User(_) => TokenKind::UserSession,
        }
    }

    /// The tag written into the claims.
    pub open spec fn token_type(self) -> Seq<char> {
        match self {
            SignedClaimsView::Notify(claims) => claims.token_type,
            SignedClaimsView::User(claims) => claims.token_type,
        }
    }

    pub open spec fn exp(self) -> int {
        match self {
            SignedClaimsView::Notify(claims) => claims.exp,
            SignedClaimsView::User(claims) => claims.exp,
        }
    }

    pub open spec fn iat(self) -> int {
        match self {
            SignedClaimsView::Notify(claims) => claims.iat,
            SignedClaimsView::User(claims) => claims.iat,
        }
    }

    /// The JSON members that the claims are signed as.
    pub open spec fn members(self) -> Map<Seq<char>, JsonMember> {
        match self {
            SignedClaimsView::Notify(claims) => notify_members(claims),
            SignedClaimsView::User(claims) => user_members(claims),
        }
    }

    /// Claims that a verifier accepts at `now`: tagged as their shape says,
    /// with times that fit the token format, and not yet expired.
    pub open spec fn acceptable_at(self, now: int) -> bool {
        &&& self.token_type() == self.kind().tag()
        &&& 0 <= self.exp() <= i64::MAX
        &&& i64::MIN <= self.iat() <= i64::MAX
        &&& !expired(self.exp(), now)
    }
}

/// The JSON members of a notify token's claims.
pub open spec fn notify_members(claims: TokenClaimsView) -> Map<Seq<char>, JsonMember> {
    Map::<Seq<char>, JsonMember>::empty().insert("sub"@, JsonMember::Text(claims.sub)).insert(
        "usage"@,
        JsonMember::Text(claims.usage),
    ).insert("token_type"@, JsonMember::Text(claims.token_type)).insert(
        "iat"@,
        JsonMember::Integer(claims.iat),
    ).insert("exp"@, JsonMember::Integer(claims.exp)).insert("jti"@, JsonMember::Text(claims.jti))
}

/// The JSON members of a user session token's claims.
pub open spec fn user_members(claims: UserClaimsView) -> Map<Seq<char>, JsonMember> {
    Map::<Seq<char>, JsonMember>::empty().insert("sub"@, JsonMember::Text(claims.sub)).insert(
        "username"@,
        JsonMember::Text(claims.username),
    ).insert("role"@, JsonMember::Text(claims.role.name())).insert(
        "iat"@,
        JsonMember::Integer(claims.iat),
    ).insert("exp"@, JsonMember::Integer(claims.exp)).insert(
        "jti"@,
        JsonMember::Text(claims.jti),
    ).insert("token_type"@, JsonMember::Text(claims.token_type))
}

/// The notify claims that a set of JSON members holds, if it holds them all.
pub open spec fn read_notify(members: Map<Seq<char>, JsonMember>) -> Option<TokenClaimsView> {
    match (
        text_at(members, "sub"@),
        text_at(members, "usage"@),
        text_at(members, "token_type"@),
        integer_at(members, "iat"@),
        integer_at(members, "exp"@),
        text_at(members, "jti"@),
    ) {
        (Some(sub), Some(usage), Some(token_type), Some(iat), Some(exp), Some(jti)) => Some(
            TokenClaimsView { sub, usage, token_type, iat, exp, jti },
        ),
        _ => None,
    }
}

/// The user claims that a set of JSON members holds, if it holds them all.
pub open spec fn read_user(members: Map<Seq<char>, JsonMember>) -> Option<UserClaimsView> {
    match (
        text_at(members, "sub"@),
        text_at(members, "username"@),
        text_at(members, "role"@),
        integer_at(members, "iat"@),
        integer_at(members, "exp"@),
        text_at(members, "jti"@),
        text_at(members, "token_type"@),
    ) {
        (
            Some(sub),
            Some(username),
            Some(role_name),
            Some(iat),
            Some(exp),
            Some(jti),
            Some(token_type),
        ) => match role_named(role_name) {
            Some(role) => Some(
                UserClaimsView { sub, username, role, iat, exp, jti, token_type },
            ),
            None => None,
        },
        _ => None,
    }
}

/// A token is expired once the clock has passed its expiry by more than the leeway.
pub open spec fn expired(exp: int, now: int) -> bool {
    exp + LEEWAY_SECONDS < now
}

/// What verification makes of the members of a correctly signed token:
/// malformed claims count as a bad token, then expiry is checked, then the
/// kind tag, then the claims of the expected kind are read.
pub open spec fn verify_payload(
    members: Map<Seq<char>, JsonMember>,
    expected: TokenKind,
    now: int,
) -> Result<SignedClaimsView, AuthError> {
    match (integer_at(members, "exp"@), text_at(members, "token_type"@)) {
        (Some(exp), Some(token_type)) => if exp < 0 {
            Err(AuthError::InvalidSignature)
        } else if expired(exp, now) {
            Err(AuthError::Expired)
        } else if token_type != expected.tag() {
            Err(AuthError::WrongKind)
        } else {
            match expected {
                TokenKind::NotifyBearer => match read_notify(members) {
                    Some(claims) => Ok(SignedClaimsView::Notify(claims)),
                    None => Err(AuthError::InvalidSignature),
                },
                TokenKind::UserSession => match read_user(members) {
                    Some(claims) => Ok(SignedClaimsView::User(claims)),
                    None => Err(AuthError::InvalidSignature),
                },
            }
        },
        _ => Err(AuthError::InvalidSignature),
    }
}

/// The token that `jsonwebtoken::encode` makes of a JSON object under a key,
/// with an HS256 header; `None` where it reports an error.
pub uninterp spec fn jwt_encoding(payload: Map<Seq<char>, JsonMember>, key: Seq<u8>) -> Option<
    Seq<char>,
>;

/// The JSON object that `jsonwebtoken::decode` reads from a token whose HS256
/// signature holds under a key; `None` where it reports an error.
pub uninterp spec fn jwt_decoding(token: Seq<char>, key: Seq<u8>) -> Option<
    Map<Seq<char>, JsonMember>,
>;

/// What verification makes of a bearer string.
pub open spec fn verify_token_text(
    token: Seq<char>,
    key: Seq<u8>,
    expected: TokenKind,
    now: int,
) -> Result<SignedClaimsView, AuthError> {
    match jwt_decoding(token, key) {
        Some(members) => verify_payload(members, expected, now),
        None => Err(AuthError::InvalidSignature),
    }
}

/// Calls `jsonwebtoken::encode` with an HS256 header and the key made by
/// `EncodingKey::from_secret`. The token is named `jwt_encoding`. It is also
/// stated that `jsonwebtoken::decode` reads the same members back from the
/// token under the same key: `encode` signs the serialized object and
/// `decode` checks that signature and parses the same bytes.
#[verifier::external_body]
fn jwt_encode(payload: &JsonObject, key: &[u8]) -> (token: Result<
    String,
    jsonwebtoken::errors::Error,
>)
    requires
        plain_members(json_members(*payload)),
    ensures
        match token {
            Ok(text) => jwt_encoding(json_members(*payload), key@) == Some(text@) && jwt_decoding(
                text@,
                key@,
            ) == Some(json_members(*payload)),
            Err(_) => jwt_encoding(json_members(*payload), key@) is None,
        },
{
    let header = jsonwebtoken::Header::new(jsonwebtoken::Algorithm::HS256);
    jsonwebtoken::encode(&header, payload, &jsonwebtoken::EncodingKey::from_secret(key))
}

/// Calls `jsonwebtoken::decode` for HS256 with the key made by
/// `DecodingKey::from_secret`, with every check on claims switched off, so
/// that only the token's shape and signature decide. The object read is named
/// `jwt_decoding`.
#[verifier::external_body]
fn jwt_decode(token: &str, key: &[u8]) -> (payload: Result<JsonObject, jsonwebtoken::errors::Error>)
    ensures
        match payload {
            Ok(object) => jwt_decoding(token@, key@) == Some(json_members(object)),
            Err(_) => jwt_decoding(token@, key@) is None,
        },
{
    let mut validation = jsonwebtoken::Validation::new(jsonwebtoken::Algorithm::HS256);
    validation.validate_exp = false;
    validation.validate_aud = false;
    validation.required_spec_claims.clear();
    let key = jsonwebtoken::DecodingKey::from_secret(key);
    jsonwebtoken::decode::<JsonObject>(token, &key, &validation).map(|data| data.claims)
}

/// The keys of the members are pairwise different.
pub proof fn lemma_member_keys_differ()
    ensures
        "sub"@ != "usage"@,
        "sub"@ != "token_type"@,
        "sub"@ != "iat"@,
        "sub"@ != "exp"@,
        "sub"@ != "jti"@,
        "sub"@ != "username"@,
        "sub"@ != "role"@,
        "usage"@ != "token_type"@,
        "usage"@ != "iat"@,
        "usage"@ != "exp"@,
        "usage"@ != "jti"@,
        "token_type"@ != "iat"@,
        "token_type"@ != "exp"@,
        "token_type"@ != "jti"@,
        "token_type"@ != "username"@,
        "token_type"@ != "role"@,
        "iat"@ != "exp"@,
        "iat"@ != "jti"@,
        "iat"@ != "username"@,
        "iat"@ != "role"@,
        "exp"@ != "jti"@,
        "exp"@ != "username"@,
        "exp"@ != "role"@,
        "jti"@ != "username"@,
        "jti"@ != "role"@,
        "username"@ != "role"@,
{
    reveal_strlit("sub");
    reveal_strlit("usage");
    reveal_strlit("token_type");
    reveal_strlit("iat");
    reveal_strlit("exp");
    reveal_strlit("jti");
    reveal_strlit("username");
    reveal_strlit("role");
    assert("sub"@.len() == 3 && "sub"@[0] == 's');
    assert("token_type"@.len() == 10);
    assert("iat"@.len() == 3 && "iat"@[0] == 'i');
    assert("exp"@.len() == 3 && "exp"@[0] == 'e');
    assert("jti"@.len() == 3 && "jti"@[0] == 'j');
    assert("username"@.len() == 8);
}

/// Claims written as JSON members are read back unchanged.
pub proof fn lemma_members_read_back(claims: SignedClaimsView)
    ensures
        claims matches SignedClaimsView::Notify(notify) ==> read_notify(notify_members(notify))
            == Some(notify),
        claims matches SignedClaimsView::User(user) ==> read_user(user_members(user)) == Some(user),
        integer_at(claims.members(), "exp"@) == Some(claims.exp()),
        text_at(claims.members(), "token_type"@) == Some(claims.token_type()),
        plain_members(claims.members()),
{
    lemma_member_keys_differ();
    if let SignedClaimsView::User(user) = claims {
        lemma_role_name_round_trip(user.role);
    }
}

/// Round trip: acceptable claims, written as JSON members, verify to
/// themselves under the kind of their shape.
pub proof fn lemma_payload_round_trip(claims: SignedClaimsView, now: int)
    requires
        claims.acceptable_at(now),
    ensures
        verify_payload(claims.members(), claims.kind(), now) == Ok::<SignedClaimsView, AuthError>(
            claims,
        ),
{
    lemma_members_read_back(claims);
}

/// The view of a verification result.
pub open spec fn verified_view(result: Result<SignedClaims, AuthError>) -> Result<
    SignedClaimsView,
    AuthError,
> {
    match result {
        Ok(claims) => Ok(claims@),
        Err(error) => Err(error),
    }
}

/// Whether a token with this expiry is expired at `now`.
pub fn is_expired(exp: i64, now: i64) -> (past: bool)
    ensures
        past == expired(exp as int, now as int),
{
    if now >= i64::MIN + LEEWAY_SECONDS {
        exp < now - LEEWAY_SECONDS
    } else {
        false
    }
}

/// The JSON object that a notify token's claims are signed as.
fn notify_payload(claims: &TokenClaims) -> (object: JsonObject)
    ensures
        json_members(object) == notify_members(claims@),
{
    let mut object = json_object_new();
    json_insert_text(&mut object, "sub", claims.sub.as_str());
    json_insert_text(&mut object, "usage", claims.usage.as_str());
    json_insert_text(&mut object, "token_type", claims.token_type.as_str());
    json_insert_integer(&mut object, "iat", claims.iat);
    json_insert_integer(&mut object, "exp", claims.exp);
    json_insert_text(&mut object, "jti", claims.jti.as_str());
    object
}

/// The JSON object that a user session token's claims are signed as.
fn user_payload(claims: &UserClaims) -> (object: JsonObject)
    ensures
        json_members(object) == user_members(claims@),
{
    let mut object = json_object_new();
    json_insert_text(&mut object, "sub", claims.sub.as_str());
    json_insert_text(&mut object, "username", claims.username.as_str());
    json_insert_text(&mut object, "role", claims.role.as_str());
    json_insert_integer(&mut object, "iat", claims.iat);
    json_insert_integer(&mut object, "exp", claims.exp);
    json_insert_text(&mut object, "jti", claims.jti.as_str());
    json_insert_text(&mut object, "token_type", claims.token_type.as_str());
    object
}

/// Reads the claims of a notify token from a JSON object.
fn notify_claims_of(payload: &JsonObject) -> (claims: Option<TokenClaims>)
    ensures
        match claims {
            Some(read) => read_notify(json_members(*payload)) == Some(read@),
            None => read_notify(json_members(*payload)) is None,
        },
{
    let sub = json_text_member(payload, "sub");
    let usage = json_text_member(payload, "usage");
    let token_type = json_text_member(payload, "token_type");
    let iat = json_integer_member(payload, "iat");
    let exp = json_integer_member(payload, "exp");
    let jti = json_text_member(payload, "jti");
    match (sub, usage, token_type, iat, exp, jti) {
        (Some(sub), Some(usage), Some(token_type), Some(iat), Some(exp), Some(jti)) => Some(
            TokenClaims { sub, usage, token_type, iat, exp, jti },
        ),
        _ => None,
    }
}

/// Reads the claims of a user session token from a JSON object.
fn user_claims_of(payload: &JsonObject) -> (claims: Option<UserClaims>)
    ensures
        match claims {
            Some(read) => read_user(json_members(*payload)) == Some(read@),
            None => read_user(json_members(*payload)) is None,
        },
{
    let sub = json_text_member(payload, "sub");
    let username = json_text_member(payload, "username");
    let role_name = json_text_member(payload, "role");
    let iat = json_integer_member(payload, "iat");
    let exp = json_integer_member(payload, "exp");
    let jti = json_text_member(payload, "jti");
    let token_type = json_text_member(payload, "token_type");
    match (sub, username, role_name, iat, exp, jti, token_type) {
        (
            Some(sub),
            Some(username),
            Some(role_name),
            Some(iat),
            Some(exp),
            Some(jti),
            Some(token_type),
        ) => match UserRole::from_name(role_name.as_str()) {
            Some(role) => Some(UserClaims { sub, username, role, iat, exp, jti, token_type }),
            None => None,
        },
        _ => None,
    }
}

/// Verification of the payload of a token whose signature has been found
/// good: the checks on format, expiry and kind, in that order.
pub fn check_payload(payload: &JsonObject, expected: TokenKind, now: i64) -> (result: Result<
    SignedClaims,
    AuthError,
>)
    ensures
        verified_view(result) == verify_payload(json_members(*payload), expected, now as int),
{
    let exp = json_integer_member(payload, "exp");
    let token_type = json_text_member(payload, "token_type");
    match (exp, token_type) {
        (Some(exp), Some(token_type)) => {
            if exp < 0 {
                Err(AuthError::InvalidSignature)
            } else if is_expired(exp, now) {
                Err(AuthError::Expired)
            } else if !text_eq(token_type.as_str(), expected.as_str()) {
                Err(AuthError::WrongKind)
            } else {
                match expected {
                    TokenKind::NotifyBearer => match notify_claims_of(payload) {
                        Some(claims) => Ok(SignedClaims::Notify(claims)),
                        None => Err(AuthError::InvalidSignature),
                    },
                    TokenKind::UserSession => match user_claims_of(payload) {
                        Some(claims) => Ok(SignedClaims::User(claims)),
                        None => Err(AuthError::InvalidSignature),
                    },
                }
            }
        },
        _ => Err(AuthError::InvalidSignature),
    }
}

/// Creates and verifies signed tokens with one shared secret.
pub struct TokenCodec {
    key: Vec<u8>,
}

impl TokenCodec {
    /// The signing key.
    pub closed spec fn key(&self) -> Seq<u8> {
        self.key@
    }

    #[verifier::type_invariant]
    spec fn strong(&self) -> bool {
        self.key@.len() >= MIN_SECRET_BYTES
    }

    /// A codec for a configured secret. The secret is checked here, once:
    /// one of less than 32 bytes is refused.
    pub fn new(secret: &str) -> (codec: Result<TokenCodec, ConfigError>)
        ensures
            match codec {
                Ok(made) => secret.spec_bytes().len() >= MIN_SECRET_BYTES && made.key()
                    == secret.spec_bytes(),
                Err(error) => secret.spec_bytes().len() < MIN_SECRET_BYTES && error
                    == ConfigError::WeakSecret,
            },
    {
        let key = secret.as_bytes_vec();
        if key.len() < MIN_SECRET_BYTES {
            Err(ConfigError::WeakSecret)
        } else {
            Ok(TokenCodec { key })
        }
    }

    /// A codec for a secret that may not have been configured at all.
    pub fn from_setting(secret: Option<&str>) -> (codec: Result<TokenCodec, ConfigError>)
        ensures
            match codec {
                Ok(made) => secret matches Some(text) && text.spec_bytes().len()
                    >= MIN_SECRET_BYTES && made.key() == text.spec_bytes(),
                Err(error) => match secret {
                    Some(text) => text.spec_bytes().len() < MIN_SECRET_BYTES && error
                        == ConfigError::WeakSecret,
                    None => error == ConfigError::MissingSecret,
                },
            },
    {
        match secret {
            Some(text) => TokenCodec::new(text),
            None => Err(ConfigError::MissingSecret),
        }
    }

    /// The length of the signing key, which is never below 32 bytes.
    pub fn key_len(&self) -> (len: usize)
        ensures
            len == self.key().len(),
            len >= MIN_SECRET_BYTES,
    {
        proof {
            use_type_invariant(self);
        }
        self.key.len()
    }

    /// Signs claims. The token is what `jsonwebtoken` makes of the claims'
    /// JSON members under the key; it is `None` only where the signing itself
    /// reports an error. A token that comes back verifies, under the kind of
    /// its claims, to those claims, at any time at which they are acceptable.
    pub fn issue(&self, claims: &SignedClaims) -> (token: Option<String>)
        ensures
            match token {
                Some(text) => jwt_encoding(claims@.members(), self.key()) == Some(text@),
                None => jwt_encoding(claims@.members(), self.key()) is None,
            },
            token matches Some(text) ==> forall|now: int|
                claims@.acceptable_at(now) ==> #[trigger] verify_token_text(
                    text@,
                    self.key(),
                    claims@.kind(),
                    now,
                ) == Ok::<SignedClaimsView, AuthError>(claims@),
    {
        let payload = match claims {
            SignedClaims::Notify(notify) => notify_payload(notify),
            SignedClaims::User(user) => user_payload(user),
        };
        proof {
            lemma_members_read_back(claims@);
        }
        match jwt_encode(&payload, self.key.as_slice()) {
            Ok(text) => {
                Some(text)
            },
            Err(_) => None,
        }
    }

    /// Verifies a bearer string at time `now`: a bad signature or malformed
    /// claims give `InvalidSignature`, claims past their expiry by more than
    /// the leeway give `Expired`, a tag other than that of `expected` gives
    /// `WrongKind`.
    pub fn verify(&self, token: &str, expected: TokenKind, now: i64) -> (result: Result<
        SignedClaims,
        AuthError,
    >)
        ensures
            verified_view(result) == verify_token_text(token@, self.key(), expected, now as int),
    {
        match jwt_decode(token, self.key.as_slice()) {
            Ok(payload) => check_payload(&payload, expected, now),
            Err(_) => Err(AuthError::InvalidSignature),
        }
    }
}

/// Claims of a token of the first format, which carries no kind tag.
#[derive(Debug, Clone, PartialEq, Eq)]
pub struct Claims {
    /// Token id.
    pub sub: String,
    /// What the token is for.
    pub usage: String,
    /// Issued at, seconds since the epoch.
    pub iat: i64,
    /// Expires at, seconds since the epoch.
    pub exp: i64,
    /// Unique id of this signing.
    pub jti: String,
}

/// `Claims` over sequences of characters.
pub struct ClaimsView {
    pub sub: Seq<char>,
    pub usage: Seq<char>,
    pub iat: int,
    pub exp: int,
    pub jti: Seq<char>,
}

impl View for Claims {
    type V = ClaimsView;

    open spec fn view(&self) -> ClaimsView {
        ClaimsView {
            sub: self.sub@,
            usage: self.usage@,
            iat: self.iat as int,
            exp: self.exp as int,
            jti: self.jti@,
        }
    }
}

/// The JSON members of claims without a kind tag.
pub open spec fn untagged_members(claims: ClaimsView) -> Map<Seq<char>, JsonMember> {
    Map::<Seq<char>, JsonMember>::empty().insert("sub"@, JsonMember::Text(claims.sub)).insert(
        "usage"@,
        JsonMember::Text(claims.usage),
    ).insert("iat"@, JsonMember::Integer(claims.iat)).insert(
        "exp"@,
        JsonMember::Integer(claims.exp),
    ).insert("jti"@, JsonMember::Text(claims.jti))
}

/// The untagged claims that a set of JSON members holds, if it holds them all.
pub open spec fn read_untagged(members: Map<Seq<char>, JsonMember>) -> Option<ClaimsView> {
    match (
        text_at(members, "sub"@),
        text_at(members, "usage"@),
        integer_at(members, "iat"@),
        integer_at(members, "exp"@),
        text_at(members, "jti"@),
    ) {
        (Some(sub), Some(usage), Some(iat), Some(exp), Some(jti)) => Some(
            ClaimsView { sub, usage, iat, exp, jti },
        ),
        _ => None,
    }
}

/// What verification makes of the members of a correctly signed token
/// without a kind tag.
pub open spec fn verify_untagged_payload(members: Map<Seq<char>, JsonMember>, now: int) -> Result<
    ClaimsView,
    AuthError,
> {
    match read_untagged(members) {
        Some(claims) => if claims.exp < 0 {
            Err(AuthError::InvalidSignature)
        } else if expired(claims.exp, now) {
            Err(AuthError::Expired)
        } else {
            Ok(claims)
        },
        None => Err(AuthError::InvalidSignature),
    }
}

/// What verification makes of a bearer string without a kind tag.
pub open spec fn verify_untagged_text(token: Seq<char>, key: Seq<u8>, now: int) -> Result<
    ClaimsView,
    AuthError,
> {
    match jwt_decoding(token, key) {
        Some(members) => verify_untagged_payload(members, now),
        None => Err(AuthError::InvalidSignature),
    }
}

/// Untagged claims, written as JSON members, verify to themselves while
/// they are not expired.
pub proof fn lemma_untagged_round_trip(claims: ClaimsView, now: int)
    requires
        0 <= claims.exp,
        !expired(claims.exp, now),
    ensures
        verify_untagged_payload(untagged_members(claims), now) == Ok::<ClaimsView, AuthError>(
            claims,
        ),
        plain_members(untagged_members(claims)),
{
    lemma_member_keys_differ();
}

impl TokenCodec {
    /// Signs claims that carry no kind tag.
    pub fn issue_untagged(&self, claims: &Claims) -> (token: Option<String>)
        ensures
            match token {
                Some(text) => jwt_encoding(untagged_members(claims@), self.key()) == Some(text@),
                None => jwt_encoding(untagged_members(claims@), self.key()) is None,
            },
            token matches Some(text) ==> forall|now: int|
                0 <= claims@.exp && !expired(claims@.exp, now) ==> #[trigger] verify_untagged_text(
                    text@,
                    self.key(),
                    now,
                ) == Ok::<ClaimsView, AuthError>(claims@),
    {
        let mut payload = json_object_new();
        json_insert_text(&mut payload, "sub", claims.sub.as_str());
        json_insert_text(&mut payload, "usage", claims.usage.as_str());
        json_insert_integer(&mut payload, "iat", claims.iat);
        json_insert_integer(&mut payload, "exp", claims.exp);
        json_insert_text(&mut payload, "jti", claims.jti.as_str());
        proof {
            lemma_member_keys_differ();
        }
        match jwt_encode(&payload, self.key.as_slice()) {
            Ok(text) => {
                Some(text)
            },
            Err(_) => None,
        }
    }

    /// Verifies, at `now`, a bearer string whose claims carry no kind tag.
    pub fn verify_untagged(&self, token: &str, now: i64) -> (result: Result<Claims, AuthError>)
        ensures
            match result {
                Ok(claims) => verify_untagged_text(token@, self.key(), now as int) == Ok::<
                    ClaimsView,
                    AuthError,
                >(claims@),
                Err(error) => verify_untagged_text(token@, self.key(), now as int) == Err::<
                    ClaimsView,
                    AuthError,
                >(error),
            },
    {
        let payload = match jwt_decode(token, self.key.as_slice()) {
            Ok(payload) => payload,
            Err(_) => {
                return Err(AuthError::InvalidSignature);
            },
        };
        let sub = json_text_member(&payload, "sub");
        let usage = json_text_member(&payload, "usage");
        let iat = json_integer_member(&payload, "iat");
        let exp = json_integer_member(&payload, "exp");
        let jti = json_text_member(&payload, "jti");
        match (sub, usage, iat, exp, jti) {
            (Some(sub), Some(usage), Some(iat), Some(exp), Some(jti)) => {
                if exp < 0 {
                    Err(AuthError::InvalidSignature)
                } else if is_expired(exp, now) {
                    Err(AuthError::Expired)
                } else {
                    Ok(Claims { sub, usage, iat, exp, jti })
                }
            },
            _ => Err(AuthError::InvalidSignature),
        }
    }
}

} // verus!

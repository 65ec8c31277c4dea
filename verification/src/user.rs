//! Users: registration, login, the session token, and what a request's
//! `Authorization` header says of its sender.

use crate::clock::{
    days_later, format_offset, format_utc, later, offset_text, unix_now, utc_text, SECONDS_PER_DAY,
};
use crate::codec::{
    jwt_encoding, user_members, verify_token_text, SignedClaims, SignedClaimsView, TokenCodec,
    TokenKind, UserClaims, UserClaimsView,
};
use crate::db::users::{user_named, user_with_id, Model, ModelView, UserDirectory, UserRole};
use crate::error::{AppError, AppErrorView, AuthError};
use crate::ids::{format_uuid, parse_uuid, random_uuid, uuid_text, uuid_value};
use crate::text::{
    find_char, first_index, has_prefix, or_empty, starts_with, text_of_utf8, text_or_empty,
    trim_start_matches, without_leading,
};
use vstd::prelude::*;

verus! {

/// `bcrypt::BcryptError`: why a password was not hashed or not checked.
/// Nothing is known of what is inside.
#[verifier::external_type_specification]
#[verifier::external_body]
pub struct ExBcryptError(bcrypt::BcryptError);

/// `base64::DecodeError`: why a text is no base64. Nothing is known of what
/// is inside.
#[verifier::external_type_specification]
#[verifier::external_body]
pub struct ExBase64DecodeError(base64::DecodeError);

/// The cost factor of password digests where none is configured.
pub const DEFAULT_COST: u32 = 12;

/// Days for which a user session token is valid.
pub const SESSION_DAYS: u32 = 7;

/// What `bcrypt::verify` says of a password and a digest; `None` where it
/// reports an error, as it does for a digest that is malformed.
pub uninterp spec fn bcrypt_check(password: Seq<char>, digest: Seq<char>) -> Option<bool>;

/// The bytes that the standard base64 alphabet, with padding, encodes as a
/// text, as `base64` decodes it; `None` where the text is no such encoding.
pub uninterp spec fn base64_decoding(text: Seq<char>) -> Option<Seq<u8>>;

/// Calls `bcrypt::hash`, which salts the digest at random. Of every digest
/// that comes back it holds that `bcrypt::verify` accepts the password
/// against it; a cost outside 4 to 31 is an error.
#[verifier::external_body]
fn bcrypt_hash(password: &str, cost: u32) -> (digest: Result<String, bcrypt::BcryptError>)
    ensures
        digest matches Ok(text) ==> bcrypt_check(password@, text@) == Some(true),
        !(4 <= cost <= 31) ==> digest is Err,
{
    bcrypt::hash(password, cost)
}

/// Calls `bcrypt::verify`. The answer is named `bcrypt_check`.
#[verifier::external_body]
fn bcrypt_verify(password: &str, digest: &str) -> (answer: Result<bool, bcrypt::BcryptError>)
    ensures
        match answer {
            Ok(matches) => bcrypt_check(password@, digest@) == Some(matches),
            Err(_) => bcrypt_check(password@, digest@) is None,
        },
{
    bcrypt::verify(password, digest)
}

/// Calls `base64::decode`, which decodes with the standard alphabet and
/// padding. The bytes are named `base64_decoding`.
#[verifier::external_body]
#[allow(deprecated)]
fn base64_decode(text: &str) -> (bytes: Result<Vec<u8>, base64::DecodeError>)
    ensures
        match bytes {
            Ok(decoded) => base64_decoding(text@) == Some(decoded@),
            Err(_) => base64_decoding(text@) is None,
        },
{
    base64::decode(text)
}

/// A login request.
#[derive(Debug, Clone, PartialEq, Eq)]
pub struct LoginRequest {
    pub username: String,
    pub password: String,
}

/// A registration request.
#[derive(Debug, Clone, PartialEq, Eq)]
pub struct RegisterRequest {
    pub username: String,
    pub password: String,
    pub email: String,
}

/// What a successful login returns.
#[derive(Debug, Clone, PartialEq, Eq)]
pub struct LoginResponse {
    pub user_id: u128,
    pub username: String,
    pub email: String,
    pub role: UserRole,
    pub jwt_token: String,
    pub expires_at: String,
}

/// `LoginResponse` over sequences of characters.
pub struct LoginResponseView {
    pub user_id: u128,
    pub username: Seq<char>,
    pub email: Seq<char>,
    pub role: UserRole,
    pub jwt_token: Seq<char>,
    pub expires_at: Seq<char>,
}

impl View for LoginResponse {
    type V = LoginResponseView;

    open spec fn view(&self) -> LoginResponseView {
        LoginResponseView {
            user_id: self.user_id,
            username: self.username@,
            email: self.email@,
            role: self.role,
            jwt_token: self.jwt_token@,
            expires_at: self.expires_at@,
        }
    }
}

/// What is shown of a user.
#[derive(Debug, Clone, PartialEq, Eq)]
pub struct UserResponse {
    pub id: u128,
    pub username: String,
    pub email: String,
    pub role: UserRole,
    pub created_at: String,
}

/// `UserResponse` over sequences of characters.
pub struct UserResponseView {
    pub id: u128,
    pub username: Seq<char>,
    pub email: Seq<char>,
    pub role: UserRole,
    pub created_at: Seq<char>,
}

impl View for UserResponse {
    type V = UserResponseView;

    open spec fn view(&self) -> UserResponseView {
        UserResponseView {
            id: self.id,
            username: self.username@,
            email: self.email@,
            role: self.role,
            created_at: self.created_at@,
        }
    }
}

/// Username and password from a `Basic` authorization header.
#[derive(Debug, Clone, PartialEq, Eq)]
pub struct BasicAuth {
    pub username: String,
    pub password: String,
}

/// Verified claims of a user session token.
#[derive(Debug, Clone, PartialEq, Eq)]
pub struct UserJwt(pub UserClaims);

/// Username and password of credentials written as `username:password`:
/// what stands before the first colon, and what stands behind it.
pub open spec fn parted(credentials: Seq<char>) -> Result<(Seq<char>, Seq<char>), AppErrorView> {
    match first_index(credentials, ':') {
        None => Err(AppErrorView::AuthError("Missing password"@)),
        Some(colon) => Ok((credentials.take(colon), credentials.skip(colon + 1))),
    }
}

/// The credentials that decoded bytes hold, where they are UTF-8 text.
pub open spec fn credentials_in(bytes: Seq<u8>) -> Result<(Seq<char>, Seq<char>), AppErrorView> {
    if !vstd::utf8::valid_utf8(bytes) {
        Err(AppErrorView::AuthError("Invalid UTF-8 encoding"@))
    } else {
        parted(vstd::utf8::decode_utf8(bytes))
    }
}

/// What a `Basic` authorization header holds: after the scheme, the base64
/// of `username:password`, parted at the first colon.
pub open spec fn basic_auth_of(header: Option<Seq<char>>) -> Result<
    (Seq<char>, Seq<char>),
    AppErrorView,
> {
    match header {
        None => Err(AppErrorView::AuthError("Missing authorization header"@)),
        Some(value) => if !has_prefix(value, "Basic "@) {
            Err(AppErrorView::AuthError("Invalid authorization header format"@))
        } else {
            match base64_decoding(without_leading(value, "Basic "@)) {
                None => Err(AppErrorView::AuthError("Invalid base64 encoding"@)),
                Some(bytes) => credentials_in(bytes),
            }
        },
    }
}

/// The view of credentials that were read, or of the error.
pub open spec fn credentials_view(result: Result<BasicAuth, AppError>) -> Result<
    (Seq<char>, Seq<char>),
    AppErrorView,
> {
    match result {
        Ok(auth) => Ok((auth.username@, auth.password@)),
        Err(error) => Err(error@),
    }
}

/// Parts credentials written as `username:password` at the first colon, so
/// that a password may hold colons and a username may not. Credentials
/// without a colon have no password, which is an error.
pub fn split_credentials(credentials: &str) -> (result: Result<BasicAuth, AppError>)
    ensures
        credentials_view(result) == parted(credentials@),
        match first_index(credentials@, ':') {
            Some(colon) => result matches Ok(auth) && auth.username@ == credentials@.take(colon)
                && auth.password@ == credentials@.skip(colon + 1),
            None => result matches Err(error) && error@ == AppErrorView::AuthError(
                "Missing password"@,
            ),
        },
{
    match find_char(credentials, ':') {
        None => Err(AppError::AuthError(String::from_str("Missing password"))),
        Some(colon) => {
            let length = credentials.unicode_len();
            let username = credentials.substring_char(0, colon);
            let password = credentials.substring_char(colon + 1, length);
            Ok(
                BasicAuth {
                    username: String::from_str(username),
                    password: String::from_str(password),
                },
            )
        },
    }
}

/// Reads credentials from the bytes that the base64 of a header decodes to:
/// they must be UTF-8 text, which is then parted at the first colon.
pub fn decode_credentials(decoded: Vec<u8>) -> (result: Result<BasicAuth, AppError>)
    ensures
        credentials_view(result) == credentials_in(decoded@),
{
    match text_of_utf8(decoded) {
        Some(text) => split_credentials(text.as_str()),
        None => Err(AppError::AuthError(String::from_str("Invalid UTF-8 encoding"))),
    }
}

/// Reads username and password from the value of an `Authorization` header
/// of the scheme `Basic`; `None` stands for a request without the header.
pub fn extract_basic_auth(header: Option<&str>) -> (result: Result<BasicAuth, AppError>)
    ensures
        credentials_view(result) == basic_auth_of(crate::text::optional_str(header)),
{
    let value = match header {
        Some(value) => value,
        None => {
            return Err(AppError::AuthError(String::from_str("Missing authorization header")));
        },
    };
    if !starts_with(value, "Basic ") {
        return Err(AppError::AuthError(String::from_str("Invalid authorization header format")));
    }
    let encoded = trim_start_matches(value, "Basic ");
    match base64_decode(encoded) {
        Ok(bytes) => decode_credentials(bytes),
        Err(_) => Err(AppError::AuthError(String::from_str("Invalid base64 encoding"))),
    }
}

/// The salted digest of a password, at the given cost factor. The password
/// itself is never stored. Whatever digest comes back, `verify_password`
/// accepts the password against it.
pub fn hash_password_with_cost(password: &str, cost: u32) -> (result: Result<String, AppError>)
    ensures
        match result {
            Ok(digest) => bcrypt_check(password@, digest@) == Some(true),
            Err(error) => error@ == AppErrorView::AuthError("Failed to process password"@),
        },
        !(4 <= cost <= 31) ==> result is Err,
{
    match bcrypt_hash(password, cost) {
        Ok(digest) => Ok(digest),
        Err(_) => Err(AppError::AuthError(String::from_str("Failed to process password"))),
    }
}

/// The salted digest of a password, at the default cost factor.
pub fn hash_password(password: &str) -> (result: Result<String, AppError>)
    ensures
        match result {
            Ok(digest) => bcrypt_check(password@, digest@) == Some(true),
            Err(error) => error@ == AppErrorView::AuthError("Failed to process password"@),
        },
{
    hash_password_with_cost(password, DEFAULT_COST)
}

/// What checking a password against a digest gives.
pub open spec fn password_verdict(password: Seq<char>, digest: Seq<char>) -> Result<
    bool,
    AppErrorView,
> {
    match bcrypt_check(password, digest) {
        Some(matches) => Ok(matches),
        None => Err(AppErrorView::AuthError("Failed to verify password"@)),
    }
}

/// Whether a password belongs to a digest.
pub fn verify_password(password: &str, hash: &str) -> (result: Result<bool, AppError>)
    ensures
        match result {
            Ok(matches) => password_verdict(password@, hash@) == Ok::<bool, AppErrorView>(matches),
            Err(error) => password_verdict(password@, hash@) == Err::<bool, AppErrorView>(error@),
        },
{
    match bcrypt_verify(password, hash) {
        Ok(matches) => Ok(matches),
        Err(_) => Err(AppError::AuthError(String::from_str("Failed to verify password"))),
    }
}

/// The claims of the session token that a user gets at `now`.
pub open spec fn session_claims(
    user: ModelView,
    now: i64,
    exp: i64,
    jti: Seq<char>,
) -> UserClaimsView {
    UserClaimsView {
        sub: uuid_text(user.id),
        username: user.username,
        role: user.role,
        iat: now as int,
        exp: exp as int,
        jti,
        token_type: TokenKind::UserSession.tag(),
    }
}

/// The session token of a user, valid for seven days from `now`; `None`
/// where the expiry is beyond the clock or the signing reports an error.
pub open spec fn session_token(user: ModelView, key: Seq<u8>, now: i64, jti: Seq<char>) -> Option<
    Seq<char>,
> {
    match later(now, SESSION_DAYS * SECONDS_PER_DAY) {
        Some(exp) => jwt_encoding(user_members(session_claims(user, now, exp, jti)), key),
        None => None,
    }
}

/// Signs the session token of a user: kind `user_jwt`, subject the user's
/// id, valid for seven days from `now`.
pub fn create_user_jwt_token(codec: &TokenCodec, user: &Model, now: i64, jti: &str) -> (result:
    Result<String, AppError>)
    ensures
        match result {
            Ok(token) => session_token(user@, codec.key(), now, jti@) == Some(token@),
            Err(error) => session_token(user@, codec.key(), now, jti@) is None && error@
                == AppErrorView::AuthError("Failed to create user token"@),
        },
{
    let exp = match days_later(now, SESSION_DAYS) {
        Some(exp) => exp,
        None => {
            return Err(AppError::AuthError(String::from_str("Failed to create user token")));
        },
    };
    let claims = UserClaims {
        sub: format_uuid(user.id),
        username: user.username.clone(),
        role: user.role,
        iat: now,
        exp,
        jti: String::from_str(jti),
        token_type: String::from_str(TokenKind::UserSession.as_str()),
    };
    match codec.issue(&SignedClaims::User(claims)) {
        Some(token) => Ok(token),
        None => Err(AppError::AuthError(String::from_str("Failed to create user token"))),
    }
}

/// What verifying a user session token gives: the claims, or the error that
/// is logged.
pub open spec fn user_token_verdict(token: Seq<char>, key: Seq<u8>, now: int) -> Result<
    UserClaimsView,
    AppErrorView,
> {
    match verify_token_text(token, key, TokenKind::UserSession, now) {
        Ok(SignedClaimsView::User(claims)) => Ok(claims),
        Ok(SignedClaimsView::Notify(_)) => Err(AppErrorView::AuthError("Invalid token type"@)),
        Err(AuthError::WrongKind) => Err(AppErrorView::AuthError("Invalid token type"@)),
        Err(_) => Err(AppErrorView::AuthError("Invalid user token"@)),
    }
}

/// Verifies a user session token at `now`.
pub fn verify_user_jwt_token_at(codec: &TokenCodec, token: &str, now: i64) -> (result: Result<
    UserClaims,
    AppError,
>)
    ensures
        match result {
            Ok(claims) => user_token_verdict(token@, codec.key(), now as int) == Ok::<
                UserClaimsView,
                AppErrorView,
            >(claims@),
            Err(error) => user_token_verdict(token@, codec.key(), now as int) == Err::<
                UserClaimsView,
                AppErrorView,
            >(error@),
        },
{
    match codec.verify(token, TokenKind::UserSession, now) {
        Ok(SignedClaims::User(claims)) => Ok(claims),
        Ok(SignedClaims::Notify(_)) => Err(
            AppError::AuthError(String::from_str("Invalid token type")),
        ),
        Err(AuthError::WrongKind) => Err(
            AppError::AuthError(String::from_str("Invalid token type")),
        ),
        Err(_) => Err(AppError::AuthError(String::from_str("Invalid user token"))),
    }
}

/// Verifies a user session token against the system clock: whatever time
/// the clock gives, the result is what verification at that time gives.
pub fn verify_user_jwt_token(codec: &TokenCodec, token: &str) -> (result: Result<
    UserClaims,
    AppError,
>)
    ensures
        exists|now: int|
            match result {
                Ok(claims) => #[trigger] user_token_verdict(token@, codec.key(), now) == Ok::<
                    UserClaimsView,
                    AppErrorView,
                >(claims@),
                Err(error) => user_token_verdict(token@, codec.key(), now) == Err::<
                    UserClaimsView,
                    AppErrorView,
                >(error@),
            },
{
    let now = unix_now();
    verify_user_jwt_token_at(codec, token, now)
}

/// The user with this username.
pub fn find_user_by_username(state: &UserDirectory, username: &str) -> (found: Option<Model>)
    ensures
        match found {
            Some(user) => user_named(state@, username@) == Some(user@),
            None => user_named(state@, username@) is None,
        },
{
    state.find_by_username(username)
}

/// The user with this id.
pub fn find_user_by_id(state: &UserDirectory, user_id: u128) -> (found: Option<Model>)
    ensures
        match found {
            Some(user) => user_with_id(state@, user_id) == Some(user@),
            None => user_with_id(state@, user_id) is None,
        },
{
    state.find_by_id(user_id)
}

/// What is shown of a user.
pub open spec fn response_of(user: ModelView) -> UserResponseView {
    UserResponseView {
        id: user.id,
        username: user.username,
        email: user.email,
        role: user.role,
        created_at: or_empty(offset_text(user.created_at as int)),
    }
}

/// What is shown of a user: never the digest of the password.
pub fn create_user_response(user: &Model) -> (response: UserResponse)
    ensures
        response@ == response_of(user@),
{
    UserResponse {
        id: user.id,
        username: user.username.clone(),
        email: user.email.clone(),
        role: user.role,
        created_at: text_or_empty(format_offset(user.created_at)),
    }
}

/// What a registration does: a taken username is a conflict; otherwise the
/// user is added with the role `User`.
pub open spec fn registration(
    users: Seq<ModelView>,
    username: Seq<char>,
    email: Seq<char>,
    digest: Seq<char>,
    id: u128,
    now: i64,
) -> Result<ModelView, AppErrorView> {
    if user_named(users, username) is Some {
        Err(AppErrorView::Conflict("Username already exists"@))
    } else if user_with_id(users, id) is Some {
        Err(AppErrorView::DatabaseError("Failed to create user"@))
    } else {
        Ok(
            ModelView {
                id,
                username,
                password_hash: digest,
                email,
                role: UserRole::User,
                created_at: now,
                updated_at: now,
            },
        )
    }
}

/// The users after a registration.
pub open spec fn registered(
    users: Seq<ModelView>,
    username: Seq<char>,
    email: Seq<char>,
    digest: Seq<char>,
    id: u128,
    now: i64,
) -> Seq<ModelView> {
    match registration(users, username, email, digest, id, now) {
        Ok(user) => users.push(user),
        Err(_) => users,
    }
}

/// Registers a user whose password digest, id and time of registration are
/// given. Where the username is taken the directory stays as it was.
pub fn register_user_with(
    state: &mut UserDirectory,
    request: &RegisterRequest,
    password_hash: String,
    user_id: u128,
    now: i64,
) -> (result: Result<UserResponse, AppError>)
    requires
        old(state).wf(),
    ensures
        final(state).wf(),
        final(state)@ == registered(
            old(state)@,
            request.username@,
            request.email@,
            password_hash@,
            user_id,
            now,
        ),
        match result {
            Ok(response) => registration(
                old(state)@,
                request.username@,
                request.email@,
                password_hash@,
                user_id,
                now,
            ) matches Ok(user) && response@ == response_of(user),
            Err(error) => registration(
                old(state)@,
                request.username@,
                request.email@,
                password_hash@,
                user_id,
                now,
            ) == Err::<ModelView, AppErrorView>(error@),
        },
{
    if state.find_by_username(request.username.as_str()).is_some() {
        return Err(AppError::Conflict(String::from_str("Username already exists")));
    }
    if state.find_by_id(user_id).is_some() {
        return Err(AppError::DatabaseError(String::from_str("Failed to create user")));
    }
    let user = Model {
        id: user_id,
        username: request.username.clone(),
        password_hash,
        email: request.email.clone(),
        role: UserRole::User,
        created_at: now,
        updated_at: now,
    };
    let response = create_user_response(&user);
    state.insert(user);
    Ok(response)
}

/// Registers a user: the password is stored as a salted digest at the given
/// cost, never as itself. A taken username is a conflict, and it is the only
/// conflict; a free username fails only where the password cannot be hashed,
/// as with a cost outside 4 to 31, or where the id that was drawn is in use.
/// Every failure leaves the directory as it was. A user that is added stands
/// last, with the role `User` and a digest that accepts the password.
pub fn register_user(state: &mut UserDirectory, request: &RegisterRequest, cost: u32) -> (result:
    Result<UserResponse, AppError>)
    requires
        old(state).wf(),
    ensures
        final(state).wf(),
        user_named(old(state)@, request.username@) is Some ==> (result matches Err(error) && error@
            == AppErrorView::Conflict("Username already exists"@)),
        !(4 <= cost <= 31) && user_named(old(state)@, request.username@) is None ==> (
            result matches Err(error)
            && error@ == AppErrorView::AuthError("Failed to process password"@)
        ),
        result matches Err(error) ==> {
            ||| user_named(old(state)@, request.username@) is Some && error@
                == AppErrorView::Conflict("Username already exists"@)
            ||| user_named(old(state)@, request.username@) is None && error@
                == AppErrorView::AuthError("Failed to process password"@)
            ||| user_named(old(state)@, request.username@) is None && 4 <= cost <= 31 && error@
                == AppErrorView::DatabaseError("Failed to create user"@)
        },
        result is Err ==> final(state)@ == old(state)@,
        result matches Ok(response) ==> {
            &&& user_named(old(state)@, request.username@) is None
            &&& final(state)@.len() == old(state)@.len() + 1
            &&& final(state)@.drop_last() == old(state)@
            &&& final(state)@.last().username == request.username@
            &&& final(state)@.last().email == request.email@
            &&& final(state)@.last().role == UserRole::User
            &&& bcrypt_check(request.password@, final(state)@.last().password_hash) == Some(true)
            &&& response@ == response_of(final(state)@.last())
        },
{
    if state.find_by_username(request.username.as_str()).is_some() {
        return Err(AppError::Conflict(String::from_str("Username already exists")));
    }
    let password_hash = match hash_password_with_cost(request.password.as_str(), cost) {
        Ok(digest) => digest,
        Err(error) => {
            return Err(error);
        },
    };
    let user_id = random_uuid();
    let now = unix_now();
    register_user_with(state, request, password_hash, user_id, now)
}

/// What a login gives. An unknown username and a wrong password give one
/// and the same error.
pub open spec fn login_outcome(
    users: Seq<ModelView>,
    key: Seq<u8>,
    username: Seq<char>,
    password: Seq<char>,
    now: i64,
    jti: Seq<char>,
) -> Result<LoginResponseView, AppErrorView> {
    match user_named(users, username) {
        None => Err(AppErrorView::AuthError("Invalid username or password"@)),
        Some(user) => match bcrypt_check(password, user.password_hash) {
            None => Err(AppErrorView::AuthError("Failed to verify password"@)),
            Some(false) => Err(AppErrorView::AuthError("Invalid username or password"@)),
            Some(true) => match session_token(user, key, now, jti) {
                None => Err(AppErrorView::AuthError("Failed to create user token"@)),
                Some(token) => Ok(
                    LoginResponseView {
                        user_id: user.id,
                        username: user.username,
                        email: user.email,
                        role: user.role,
                        jwt_token: token,
                        expires_at: or_empty(
                            match later(now, SESSION_DAYS * SECONDS_PER_DAY) {
                                Some(exp) => utc_text(exp as int),
                                None => None,
                            },
                        ),
                    },
                ),
            },
        },
    }
}

/// The view of a login result.
pub open spec fn login_view(result: Result<LoginResponse, AppError>) -> Result<
    LoginResponseView,
    AppErrorView,
> {
    match result {
        Ok(response) => Ok(response@),
        Err(error) => Err(error@),
    }
}

/// Logs a user in at `now`, with `jti` as the unique id of the session token.
pub fn login_user_at(
    state: &UserDirectory,
    codec: &TokenCodec,
    request: &LoginRequest,
    now: i64,
    jti: &str,
) -> (result: Result<LoginResponse, AppError>)
    ensures
        login_view(result) == login_outcome(
            state@,
            codec.key(),
            request.username@,
            request.password@,
            now,
            jti@,
        ),
{
    let user = match state.find_by_username(request.username.as_str()) {
        Some(user) => user,
        None => {
            return Err(AppError::AuthError(String::from_str("Invalid username or password")));
        },
    };
    let is_valid = match verify_password(request.password.as_str(), user.password_hash.as_str()) {
        Ok(matches) => matches,
        Err(error) => {
            return Err(error);
        },
    };
    if !is_valid {
        return Err(AppError::AuthError(String::from_str("Invalid username or password")));
    }
    let jwt_token = match create_user_jwt_token(codec, &user, now, jti) {
        Ok(token) => token,
        Err(error) => {
            return Err(error);
        },
    };
    let expires_at = match days_later(now, SESSION_DAYS) {
        Some(exp) => text_or_empty(format_utc(exp)),
        None => String::new(),
    };
    Ok(
        LoginResponse {
            user_id: user.id,
            username: user.username,
            email: user.email,
            role: user.role,
            jwt_token,
            expires_at,
        },
    )
}

/// Logs a user in: whatever the clock and the random id are, the result is
/// what `login_outcome` gives for them. An unknown username and a wrong
/// password are told apart by nothing in the result.
pub fn login_user(state: &UserDirectory, codec: &TokenCodec, request: &LoginRequest) -> (result:
    Result<LoginResponse, AppError>)
    ensures
        exists|now: i64, jti: Seq<char>|
            login_view(result) == #[trigger] login_outcome(
                state@,
                codec.key(),
                request.username@,
                request.password@,
                now,
                jti,
            ),
{
    let now = unix_now();
    let jti = format_uuid(random_uuid());
    login_user_at(state, codec, request, now, jti.as_str())
}

/// A login with an unknown username and a login with a wrong password fail
/// with the same error, text for text.
pub proof fn lemma_login_failures_look_alike(
    users: Seq<ModelView>,
    key: Seq<u8>,
    unknown: Seq<char>,
    known: Seq<char>,
    any_password: Seq<char>,
    wrong_password: Seq<char>,
    now: i64,
    jti: Seq<char>,
)
    requires
        user_named(users, unknown) is None,
        user_named(users, known) matches Some(user) && bcrypt_check(
            wrong_password,
            user.password_hash,
        ) == Some(false),
    ensures
        login_outcome(users, key, unknown, any_password, now, jti) == login_outcome(
            users,
            key,
            known,
            wrong_password,
            now,
            jti,
        ),
        login_outcome(users, key, unknown, any_password, now, jti) == Err::<
            LoginResponseView,
            AppErrorView,
        >(AppErrorView::AuthError("Invalid username or password"@)),
{
}

/// Registering a username twice: the second registration is a conflict and
/// changes nothing, so the first user's record stays as it was.
pub proof fn lemma_second_registration_conflicts(
    users: Seq<ModelView>,
    username: Seq<char>,
    first_email: Seq<char>,
    first_digest: Seq<char>,
    first_id: u128,
    first_now: i64,
    second_email: Seq<char>,
    second_digest: Seq<char>,
    second_id: u128,
    second_now: i64,
)
    requires
        registration(users, username, first_email, first_digest, first_id, first_now) is Ok,
    ensures
        ({
            let after = registered(users, username, first_email, first_digest, first_id, first_now);
            &&& registration(after, username, second_email, second_digest, second_id, second_now)
                == Err::<ModelView, AppErrorView>(
                AppErrorView::Conflict("Username already exists"@),
            )
            &&& registered(after, username, second_email, second_digest, second_id, second_now)
                == after
            &&& user_named(after, username) == Some(
                registration(
                    users,
                    username,
                    first_email,
                    first_digest,
                    first_id,
                    first_now,
                )->Ok_0,
            )
        }),
{
}

/// What the profile of the bearer of claims is.
pub open spec fn profile_of(users: Seq<ModelView>, subject: Seq<char>) -> Result<
    UserResponseView,
    AppErrorView,
> {
    match uuid_value(subject) {
        None => Err(AppErrorView::AuthError("Invalid user ID"@)),
        Some(id) => match user_with_id(users, id) {
            None => Err(AppErrorView::AuthError("User not found"@)),
            Some(user) => Ok(response_of(user)),
        },
    }
}

/// The profile of the user that verified claims speak of.
pub fn get_user_profile(state: &UserDirectory, claims: &UserClaims) -> (result: Result<
    UserResponse,
    AppError,
>)
    ensures
        match result {
            Ok(response) => profile_of(state@, claims.sub@) == Ok::<
                UserResponseView,
                AppErrorView,
            >(response@),
            Err(error) => profile_of(state@, claims.sub@) == Err::<UserResponseView, AppErrorView>(
                error@,
            ),
        },
{
    let user_id = match parse_uuid(claims.sub.as_str()) {
        Some(id) => id,
        None => {
            return Err(AppError::AuthError(String::from_str("Invalid user ID")));
        },
    };
    match state.find_by_id(user_id) {
        Some(user) => Ok(create_user_response(&user)),
        None => Err(AppError::AuthError(String::from_str("User not found"))),
    }
}

/// What an `Authorization` header of the scheme `Bearer` holds for a user.
pub open spec fn user_jwt_of(header: Option<Seq<char>>, key: Seq<u8>, now: int) -> Result<
    UserClaimsView,
    AppErrorView,
> {
    match header {
        None => Err(AppErrorView::AuthError("Missing authorization header"@)),
        Some(value) => if !has_prefix(value, "Bearer "@) {
            Err(AppErrorView::AuthError("Invalid authorization header format"@))
        } else {
            user_token_verdict(without_leading(value, "Bearer "@), key, now)
        },
    }
}

/// Reads and verifies, at `now`, the user session token of a request from
/// the value of its `Authorization` header; `None` stands for a request
/// without the header.
pub fn extract_user_jwt(codec: &TokenCodec, header: Option<&str>, now: i64) -> (result: Result<
    UserJwt,
    AppError,
>)
    ensures
        match result {
            Ok(jwt) => user_jwt_of(crate::text::optional_str(header), codec.key(), now as int)
                == Ok::<UserClaimsView, AppErrorView>(jwt.0@),
            Err(error) => user_jwt_of(crate::text::optional_str(header), codec.key(), now as int)
                == Err::<UserClaimsView, AppErrorView>(error@),
        },
{
    let value = match header {
        Some(value) => value,
        None => {
            return Err(AppError::AuthError(String::from_str("Missing authorization header")));
        },
    };
    if !starts_with(value, "Bearer ") {
        return Err(AppError::AuthError(String::from_str("Invalid authorization header format")));
    }
    let token = trim_start_matches(value, "Bearer ");
    match verify_user_jwt_token_at(codec, token, now) {
        Ok(claims) => Ok(UserJwt(claims)),
        Err(error) => Err(error),
    }
}

/// What the guard before the user routes decides: the user and the claims
/// that the request goes on with, or the error it is answered with.
pub open spec fn user_guard(
    users: Seq<ModelView>,
    header: Option<Seq<char>>,
    key: Seq<u8>,
    now: int,
) -> Result<(ModelView, UserClaimsView), AppErrorView> {
    match user_jwt_of(header, key, now) {
        Err(error) => Err(error),
        Ok(claims) => match uuid_value(claims.sub) {
            None => Err(AppErrorView::AuthError("Invalid user ID"@)),
            Some(id) => match user_with_id(users, id) {
                None => Err(AppErrorView::AuthError("User not found"@)),
                Some(user) => Ok((user, claims)),
            },
        },
    }
}

/// The guard before the user routes: the request must carry a valid user
/// session token whose user still exists.
pub fn user_auth_middleware(
    state: &UserDirectory,
    codec: &TokenCodec,
    header: Option<&str>,
    now: i64,
) -> (result: Result<(Model, UserClaims), AppError>)
    ensures
        match result {
            Ok(pair) => user_guard(
                state@,
                crate::text::optional_str(header),
                codec.key(),
                now as int,
            ) == Ok::<(ModelView, UserClaimsView), AppErrorView>((pair.0@, pair.1@)),
            Err(error) => user_guard(
                state@,
                crate::text::optional_str(header),
                codec.key(),
                now as int,
            ) == Err::<(ModelView, UserClaimsView), AppErrorView>(error@),
        },
{
    let claims = match extract_user_jwt(codec, header, now) {
        Ok(jwt) => jwt.0,
        Err(error) => {
            return Err(error);
        },
    };
    let user_id = match parse_uuid(claims.sub.as_str()) {
        Some(id) => id,
        None => {
            return Err(AppError::AuthError(String::from_str("Invalid user ID")));
        },
    };
    match state.find_by_id(user_id) {
        Some(user) => Ok((user, claims)),
        None => Err(AppError::AuthError(String::from_str("User not found"))),
    }
}

} // verus!

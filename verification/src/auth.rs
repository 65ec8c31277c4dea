//! Authorization: a bearer token counts only if its signature verifies and,
//! for notify tokens, its digest is on record and unexpired.

use crate::clock::{format_utc, hours_later, later, unix_now, utc_text, SECONDS_PER_HOUR};
use crate::codec::{
    jwt_encoding, notify_members, verify_token_text, verify_untagged_text, Claims, ClaimsView,
    SignedClaims, SignedClaimsView, TokenClaims, TokenClaimsView, TokenCodec, TokenKind,
};
use crate::db::token_ops::{
    holds_hash, holds_live, lemma_parts_hold, new_record, newest_first, remaining, selected,
    touched, valid_records, views, SelectorView, TokenStore,
};
use crate::db::tokens::{Model, ModelView, TokenType};
use crate::error::{AppError, AppErrorView, AuthError, StorageError};
use crate::hashing::{generate_token_hash, token_hash};
use crate::ids::{format_uuid, random_uuid};
use crate::text::{
    copy_optional_text, decimal_text, has_prefix, i64_text, optional_str, optional_text, or_empty,
    starts_with, text_or_empty, trim_start_matches, without_leading,
};
use vstd::prelude::*;

verus! {

/// Hours for which a notify token is valid where the request names none.
pub const DEFAULT_TTL_HOURS: u64 = 24;

/// A request for a notify token.
#[derive(Debug, Clone, PartialEq, Eq)]
pub struct CreateTokenRequest {
    pub usage: String,
    pub expires_in_hours: Option<u64>,
    pub device_info: Option<String>,
}

/// The answer to a request for a notify token. It is the only place where
/// the bearer string is shown.
#[derive(Debug, Clone, PartialEq, Eq)]
pub struct CreateTokenResponse {
    pub token: String,
    pub token_id: String,
    pub usage: String,
    pub token_type: String,
    pub expires_at: String,
}

/// `CreateTokenResponse` over sequences of characters.
pub struct CreateTokenResponseView {
    pub token: Seq<char>,
    pub token_id: Seq<char>,
    pub usage: Seq<char>,
    pub token_type: Seq<char>,
    pub expires_at: Seq<char>,
}

impl View for CreateTokenResponse {
    type V = CreateTokenResponseView;

    open spec fn view(&self) -> CreateTokenResponseView {
        CreateTokenResponseView {
            token: self.token@,
            token_id: self.token_id@,
            usage: self.usage@,
            token_type: self.token_type@,
            expires_at: self.expires_at@,
        }
    }
}

/// What is shown of a stored token.
#[derive(Debug, Clone, PartialEq, Eq)]
pub struct TokenInfoResponse {
    pub id: i32,
    pub usage: String,
    pub token_type: String,
    pub device_info: Option<String>,
    pub created_at: String,
    pub expires_at: String,
    pub last_used_at: Option<String>,
}

/// `TokenInfoResponse` over sequences of characters.
pub struct TokenInfoResponseView {
    pub id: i32,
    pub usage: Seq<char>,
    pub token_type: Seq<char>,
    pub device_info: Option<Seq<char>>,
    pub created_at: Seq<char>,
    pub expires_at: Seq<char>,
    pub last_used_at: Option<Seq<char>>,
}

impl View for TokenInfoResponse {
    type V = TokenInfoResponseView;

    open spec fn view(&self) -> TokenInfoResponseView {
        TokenInfoResponseView {
            id: self.id,
            usage: self.usage@,
            token_type: self.token_type@,
            device_info: optional_text(self.device_info),
            created_at: self.created_at@,
            expires_at: self.expires_at@,
            last_used_at: optional_text(self.last_used_at),
        }
    }
}

/// A bearer string taken from a request.
#[derive(Debug, Clone, PartialEq, Eq)]
pub struct BearerToken(pub String);

/// Why a bearer string was turned away. This is for the log: a caller is
/// told `Unauthorized` and no more.
#[derive(Debug, Clone, Copy, PartialEq, Eq, Structural)]
pub enum Denial {
    InvalidSignature,
    Expired,
    WrongKind,
    /// The signature holds, but no unexpired record of the token is on file.
    Revoked,
}

/// The two-factor check. The signature must verify for the expected kind;
/// a notify token must also be on record, unexpired. User session tokens
/// are not kept on record and pass on their signature alone.
pub open spec fn authorization(
    key: Seq<u8>,
    records: Seq<ModelView>,
    token: Seq<char>,
    expected: TokenKind,
    now: i64,
) -> Result<SignedClaimsView, Denial> {
    match verify_token_text(token, key, expected, now as int) {
        Err(AuthError::Expired) => Err(Denial::Expired),
        Err(AuthError::WrongKind) => Err(Denial::WrongKind),
        Err(_) => Err(Denial::InvalidSignature),
        Ok(claims) => if expected == TokenKind::NotifyBearer && !holds_live(
            records,
            token_hash(token),
            now,
        ) {
            Err(Denial::Revoked)
        } else {
            Ok(claims)
        },
    }
}

/// The two-factor check, with the reason of a refusal.
pub fn authorize_with_reason(
    codec: &TokenCodec,
    db: &TokenStore,
    token: &str,
    expected: TokenKind,
    now: i64,
) -> (result: Result<SignedClaims, Denial>)
    ensures
        match result {
            Ok(claims) => authorization(codec.key(), db@, token@, expected, now) == Ok::<
                SignedClaimsView,
                Denial,
            >(claims@),
            Err(denial) => authorization(codec.key(), db@, token@, expected, now) == Err::<
                SignedClaimsView,
                Denial,
            >(denial),
        },
{
    match codec.verify(token, expected, now) {
        Err(AuthError::Expired) => Err(Denial::Expired),
        Err(AuthError::WrongKind) => Err(Denial::WrongKind),
        Err(_) => Err(Denial::InvalidSignature),
        Ok(claims) => {
            match expected {
                TokenKind::NotifyBearer => {
                    let digest = generate_token_hash(token);
                    if db.exists_and_valid(digest.as_str(), now) {
                        Ok(claims)
                    } else {
                        Err(Denial::Revoked)
                    }
                },
                TokenKind::UserSession => Ok(claims),
            }
        },
    }
}

/// The two-factor check as a caller sees it: the claims, or `Unauthorized`
/// whatever the reason. A notify token whose digest is not on record,
/// unexpired, is refused even where its signature and expiry are in order.
pub fn authorize(
    codec: &TokenCodec,
    db: &TokenStore,
    token: &str,
    expected: TokenKind,
    now: i64,
) -> (result: Result<SignedClaims, AuthError>)
    ensures
        match result {
            Ok(claims) => authorization(codec.key(), db@, token@, expected, now) == Ok::<
                SignedClaimsView,
                Denial,
            >(claims@),
            Err(error) => authorization(codec.key(), db@, token@, expected, now) is Err && error
                == AuthError::Unauthorized,
        },
        expected == TokenKind::NotifyBearer && !holds_live(db@, token_hash(token@), now)
            ==> result is Err,
{
    match authorize_with_reason(codec, db, token, expected, now) {
        Ok(claims) => Ok(claims),
        Err(_) => Err(AuthError::Unauthorized),
    }
}

/// Two factors: a notify token without an unexpired record is refused,
/// whatever its signature says.
pub proof fn lemma_two_factor(key: Seq<u8>, records: Seq<ModelView>, token: Seq<char>, now: i64)
    requires
        !holds_live(records, token_hash(token), now),
    ensures
        authorization(key, records, token, TokenKind::NotifyBearer, now) is Err,
{
}

/// Revocation before expiry: once the record of a token is deleted by its
/// id, the bearer string is refused, though its signed claims are unchanged.
pub proof fn lemma_revocation(
    key: Seq<u8>,
    records: Seq<ModelView>,
    token: Seq<char>,
    id: i32,
    now: i64,
)
    requires
        valid_records(records),
        exists|i: int|
            0 <= i < records.len() && (#[trigger] records[i]).id == id && records[i].token_hash
                == token_hash(token),
    ensures
        authorization(
            key,
            remaining(records, SelectorView::Id(id)),
            token,
            TokenKind::NotifyBearer,
            now,
        ) is Err,
        !holds_hash(remaining(records, SelectorView::Id(id)), token_hash(token)),
{
    let left = remaining(records, SelectorView::Id(id));
    lemma_parts_hold(records, SelectorView::Id(id));
    assert forall|k: int| 0 <= k < left.len() implies (#[trigger] left[k]).token_hash
        != token_hash(token) by {
        assert(left.contains(left[k]));
    }
}

/// The claims of a notify token: the subject is the id of the token's record.
pub open spec fn notify_claims(
    record_id: i32,
    usage: Seq<char>,
    now: i64,
    exp: i64,
    jti: Seq<char>,
) -> TokenClaimsView {
    TokenClaimsView {
        sub: decimal_text(record_id as int),
        usage,
        token_type: TokenKind::NotifyBearer.tag(),
        iat: now as int,
        exp: exp as int,
        jti,
    }
}

/// The lifetime asked for, or the default of 24 hours.
pub open spec fn lifetime_hours(requested: Option<u64>) -> u64 {
    match requested {
        Some(hours) => hours,
        None => DEFAULT_TTL_HOURS,
    }
}

/// What issuing a notify token gives: the bearer string and the record that
/// is added for it, or the error.
pub open spec fn issuing(
    key: Seq<u8>,
    records: Seq<ModelView>,
    next_key: i32,
    usage: Seq<char>,
    ttl_hours: Option<u64>,
    device_info: Option<Seq<char>>,
    owner_id: Option<u128>,
    now: i64,
    jti: Seq<char>,
) -> Result<(Seq<char>, ModelView), AppErrorView> {
    match later(now, lifetime_hours(ttl_hours) * SECONDS_PER_HOUR) {
        None => Err(AppErrorView::Validation("expires_in_hours"@)),
        Some(exp) => match jwt_encoding(
            notify_members(notify_claims(next_key, usage, now, exp, jti)),
            key,
        ) {
            None => Err(AppErrorView::AuthError("Failed to create token"@)),
            Some(token) => if holds_hash(records, token_hash(token)) {
                Err(AppErrorView::Conflict("Token already exists"@))
            } else if next_key == i32::MAX {
                Err(AppErrorView::DatabaseError("Failed to create notify token"@))
            } else {
                Ok(
                    (
                        token,
                        new_record(
                            next_key,
                            token_hash(token),
                            TokenType::NotifyBearer,
                            usage,
                            owner_id,
                            device_info,
                            now,
                            exp,
                        ),
                    ),
                )
            },
        },
    }
}

/// Issues a notify token at `now`: signs the claims, and stores the digest of
/// the bearer string, never the string. On any error the store stays as it
/// was. A token that comes back is on record and unexpired at `now`, and
/// passes the two-factor check until it expires or is revoked.
pub fn issue_notify_token(
    codec: &TokenCodec,
    db: &mut TokenStore,
    usage: &str,
    ttl_hours: Option<u64>,
    device_info: Option<String>,
    owner_id: Option<u128>,
    now: i64,
    jti: &str,
) -> (result: Result<(String, Model), AppError>)
    requires
        old(db).wf(),
    ensures
        final(db).wf(),
        match result {
            Ok(issued) => {
                &&& issuing(
                    codec.key(),
                    old(db)@,
                    old(db).next_key(),
                    usage@,
                    ttl_hours,
                    optional_text(device_info),
                    owner_id,
                    now,
                    jti@,
                ) == Ok::<(Seq<char>, ModelView), AppErrorView>((issued.0@, issued.1@))
                &&& final(db)@ == old(db)@.push(issued.1@)
                &&& final(db).next_key() == old(db).next_key() + 1
            },
            Err(error) => {
                &&& issuing(
                    codec.key(),
                    old(db)@,
                    old(db).next_key(),
                    usage@,
                    ttl_hours,
                    optional_text(device_info),
                    owner_id,
                    now,
                    jti@,
                ) == Err::<(Seq<char>, ModelView), AppErrorView>(error@)
                &&& final(db)@ == old(db)@
                &&& final(db).next_key() == old(db).next_key()
            },
        },
        result matches Ok(issued) ==> forall|at: i64|
            0 <= at < issued.1.expires_at ==> (#[trigger] authorization(
                codec.key(),
                final(db)@,
                issued.0@,
                TokenKind::NotifyBearer,
                at,
            )) is Ok,
{
    let hours = match ttl_hours {
        Some(hours) => hours,
        None => DEFAULT_TTL_HOURS,
    };
    let exp = match hours_later(now, hours) {
        Some(exp) => exp,
        None => {
            return Err(AppError::Validation(String::from_str("expires_in_hours")));
        },
    };
    let record_id = db.peek_next_key();
    let claims = TokenClaims {
        sub: i64_text(record_id as i64),
        usage: String::from_str(usage),
        token_type: String::from_str(TokenKind::NotifyBearer.as_str()),
        iat: now,
        exp,
        jti: String::from_str(jti),
    };
    let token = match codec.issue(&SignedClaims::Notify(claims)) {
        Some(token) => token,
        None => {
            return Err(AppError::AuthError(String::from_str("Failed to create token")));
        },
    };
    let digest = generate_token_hash(token.as_str());
    match db.create(
        digest.as_str(),
        TokenType::NotifyBearer,
        usage,
        owner_id,
        device_info,
        now,
        exp,
    ) {
        Ok(record) => {
            proof {
                let stored = db@;
                let last = stored.len() - 1;
                assert forall|at: i64|
                    0 <= at < record.expires_at implies (#[trigger] authorization(
                    codec.key(),
                    stored,
                    token@,
                    TokenKind::NotifyBearer,
                    at,
                )) is Ok by {
                    assert(stored[last].token_hash == token_hash(token@) && stored[last].live_at(
                        at,
                    ));
                }
            }
            Ok((token, record))
        },
        Err(StorageError::Duplicate) => Err(
            AppError::Conflict(String::from_str("Token already exists")),
        ),
        Err(StorageError::KeysExhausted) => Err(
            AppError::DatabaseError(String::from_str("Failed to create notify token")),
        ),
    }
}

/// The answer that stands for an issued token.
pub open spec fn created_response(token: Seq<char>, record: ModelView) -> CreateTokenResponseView {
    CreateTokenResponseView {
        token,
        token_id: decimal_text(record.id as int),
        usage: record.usage,
        token_type: TokenKind::NotifyBearer.tag(),
        expires_at: or_empty(utc_text(record.expires_at as int)),
    }
}

/// Handles a request for a notify token at `now`, with `jti` as the unique
/// id of the signing. The token of an answer passes the two-factor check
/// until the added record expires.
pub fn create_token_at(
    codec: &TokenCodec,
    db: &mut TokenStore,
    request: &CreateTokenRequest,
    owner_id: Option<u128>,
    now: i64,
    jti: &str,
) -> (result: Result<CreateTokenResponse, AppError>)
    requires
        old(db).wf(),
    ensures
        final(db).wf(),
        match issuing(
            codec.key(),
            old(db)@,
            old(db).next_key(),
            request.usage@,
            request.expires_in_hours,
            optional_text(request.device_info),
            owner_id,
            now,
            jti@,
        ) {
            Ok(issued) => {
                &&& result matches Ok(response)
                &&& response@ == created_response(issued.0, issued.1)
                &&& final(db)@ == old(db)@.push(issued.1)
                &&& final(db).next_key() == old(db).next_key() + 1
            },
            Err(error) => {
                &&& result matches Err(reported)
                &&& reported@ == error
                &&& final(db)@ == old(db)@
                &&& final(db).next_key() == old(db).next_key()
            },
        },
        result matches Ok(response) ==> forall|at: i64|
            0 <= at < final(db)@.last().expires_at ==> (#[trigger] authorization(
                codec.key(),
                final(db)@,
                response.token@,
                TokenKind::NotifyBearer,
                at,
            )) is Ok,
{
    let device_info = copy_optional_text(&request.device_info);
    match issue_notify_token(
        codec,
        db,
        request.usage.as_str(),
        request.expires_in_hours,
        device_info,
        owner_id,
        now,
        jti,
    ) {
        Ok(issued) => {
            let (token, record) = issued;
            Ok(
                CreateTokenResponse {
                    token,
                    token_id: i64_text(record.id as i64),
                    usage: record.usage,
                    token_type: String::from_str(TokenKind::NotifyBearer.as_str()),
                    expires_at: text_or_empty(format_utc(record.expires_at)),
                },
            )
        },
        Err(error) => Err(error),
    }
}

/// The view of the answer to a request for a notify token.
pub open spec fn answer_view(result: Result<CreateTokenResponse, AppError>) -> Result<
    CreateTokenResponseView,
    AppErrorView,
> {
    match result {
        Ok(response) => Ok(response@),
        Err(error) => Err(error@),
    }
}

/// Whether an answer and a store are what handling a request for a notify
/// token gives at the time `now`, with `jti` as the unique id of the signing:
/// the token that `issuing` gives is answered and its record added, or its
/// error is answered and the store left as it was.
pub open spec fn request_handled(
    key: Seq<u8>,
    before: Seq<ModelView>,
    next_key: i32,
    usage: Seq<char>,
    ttl_hours: Option<u64>,
    device_info: Option<Seq<char>>,
    owner_id: Option<u128>,
    now: i64,
    jti: Seq<char>,
    answer: Result<CreateTokenResponseView, AppErrorView>,
    after: Seq<ModelView>,
) -> bool {
    match issuing(key, before, next_key, usage, ttl_hours, device_info, owner_id, now, jti) {
        Ok(issued) => answer == Ok::<CreateTokenResponseView, AppErrorView>(
            created_response(issued.0, issued.1),
        ) && after == before.push(issued.1),
        Err(error) => answer == Err::<CreateTokenResponseView, AppErrorView>(error) && after
            == before,
    }
}

/// Handles a request for a notify token. The clock and the unique id of the
/// signing come from outside: the answer and the store are what
/// `create_token_at` gives for the time and the id that came back. Whatever
/// they are, an error leaves the store as it was, and an answer stands for
/// exactly one added record, of the requested usage, that is on file under
/// the digest of the token shown; the token shown passes the two-factor
/// check from then until the record expires.
pub fn create_token(
    codec: &TokenCodec,
    db: &mut TokenStore,
    request: &CreateTokenRequest,
    owner_id: Option<u128>,
) -> (result: Result<CreateTokenResponse, AppError>)
    requires
        old(db).wf(),
    ensures
        final(db).wf(),
        exists|now: i64, jti: Seq<char>| #[trigger]
            request_handled(
                codec.key(),
                old(db)@,
                old(db).next_key(),
                request.usage@,
                request.expires_in_hours,
                optional_text(request.device_info),
                owner_id,
                now,
                jti,
                answer_view(result),
                final(db)@,
            ),
        result is Err ==> final(db)@ == old(db)@ && final(db).next_key() == old(db).next_key(),
        result matches Ok(response) ==> forall|at: i64|
            0 <= at < final(db)@.last().expires_at ==> (#[trigger] authorization(
                codec.key(),
                final(db)@,
                response.token@,
                TokenKind::NotifyBearer,
                at,
            )) is Ok,
        result matches Ok(response) ==> {
            &&& final(db).next_key() == old(db).next_key() + 1
            &&& 0 <= final(db)@.last().created_at <= final(db)@.last().expires_at
            &&& final(db)@.len() == old(db)@.len() + 1
            &&& final(db)@.drop_last() == old(db)@
            &&& final(db)@.last().token_hash == token_hash(response.token@)
            &&& final(db)@.last().usage == request.usage@
            &&& final(db)@.last().user_id == owner_id
            &&& final(db)@.last().token_type == TokenType::NotifyBearer
            &&& later(
                final(db)@.last().created_at,
                lifetime_hours(request.expires_in_hours) * SECONDS_PER_HOUR,
            ) == Some(final(db)@.last().expires_at)
            &&& response@ == created_response(response.token@, final(db)@.last())
        },
{
    let now = unix_now();
    let jti = format_uuid(random_uuid());
    let ghost before = db@;
    let ghost next_key = db.next_key();
    let result = create_token_at(codec, db, request, owner_id, now, jti.as_str());
    assert(request_handled(
        codec.key(),
        before,
        next_key,
        request.usage@,
        request.expires_in_hours,
        optional_text(request.device_info),
        owner_id,
        now,
        jti@,
        answer_view(result),
        db@,
    ));
    result
}

/// What is shown of a stored token.
pub open spec fn info_of(record: ModelView) -> TokenInfoResponseView {
    TokenInfoResponseView {
        id: record.id,
        usage: record.usage,
        token_type: record.token_type.kind().tag(),
        device_info: record.device_info,
        created_at: or_empty(utc_text(record.created_at as int)),
        expires_at: or_empty(utc_text(record.expires_at as int)),
        last_used_at: match record.last_used_at {
            Some(time) => Some(or_empty(utc_text(time as int))),
            None => None,
        },
    }
}

/// What is shown of a stored token: never its digest.
pub fn token_info(record: &Model) -> (info: TokenInfoResponse)
    ensures
        info@ == info_of(record@),
{
    TokenInfoResponse {
        id: record.id,
        usage: record.usage.clone(),
        token_type: String::from_str(record.token_type.as_str()),
        device_info: copy_optional_text(&record.device_info),
        created_at: text_or_empty(format_utc(record.created_at)),
        expires_at: text_or_empty(format_utc(record.expires_at)),
        last_used_at: match record.last_used_at {
            Some(time) => Some(text_or_empty(format_utc(time))),
            None => None,
        },
    }
}

/// Every stored token, newest first, as it is shown.
pub fn get_tokens(db: &TokenStore) -> (shown: Vec<TokenInfoResponse>)
    ensures
        shown@.len() == newest_first(selected(db@, SelectorView::All)).len(),
        forall|i: int|
            0 <= i < shown@.len() ==> (#[trigger] shown@[i])@ == info_of(
                newest_first(selected(db@, SelectorView::All))[i],
            ),
{
    let records = db.select(&crate::db::token_ops::Selector::All);
    let mut shown: Vec<TokenInfoResponse> = Vec::new();
    let mut i: usize = 0;
    while i < records.len()
        invariant
            i <= records.len(),
            shown@.len() == i,
            forall|k: int| 0 <= k < i ==> (#[trigger] shown@[k])@ == info_of(views(records@)[k]),
        decreases records.len() - i,
    {
        shown.push(token_info(&records[i]));
        i += 1;
    }
    shown
}

/// Revokes a token by the id of its record. The status is 200 where a record
/// went and 404 where there was none; either way no record has the id after.
pub fn delete_token(db: &mut TokenStore, token_id: i32) -> (status: u16)
    requires
        old(db).wf(),
    ensures
        final(db).wf(),
        final(db)@ == remaining(old(db)@, SelectorView::Id(token_id)),
        final(db).next_key() == old(db).next_key(),
        status == if selected(old(db)@, SelectorView::Id(token_id)).len() > 0 {
            200u16
        } else {
            404u16
        },
{
    if crate::db::token_ops::delete_token_by_id(db, token_id) {
        200
    } else {
        404
    }
}

/// What verifying a notify token gives: the claims, or the error that is logged.
pub open spec fn notify_token_verdict(token: Seq<char>, key: Seq<u8>, now: int) -> Result<
    TokenClaimsView,
    AppErrorView,
> {
    match verify_token_text(token, key, TokenKind::NotifyBearer, now) {
        Ok(SignedClaimsView::Notify(claims)) => Ok(claims),
        Ok(SignedClaimsView::User(_)) => Err(AppErrorView::AuthError("Invalid token type"@)),
        Err(AuthError::WrongKind) => Err(AppErrorView::AuthError("Invalid token type"@)),
        Err(_) => Err(AppErrorView::AuthError("Invalid notify token"@)),
    }
}

/// Verifies the signature, expiry and kind of a notify token at `now`. The
/// store is not asked.
pub fn verify_notify_token_at(codec: &TokenCodec, token: &str, now: i64) -> (result: Result<
    TokenClaims,
    AppError,
>)
    ensures
        match result {
            Ok(claims) => notify_token_verdict(token@, codec.key(), now as int) == Ok::<
                TokenClaimsView,
                AppErrorView,
            >(claims@),
            Err(error) => notify_token_verdict(token@, codec.key(), now as int) == Err::<
                TokenClaimsView,
                AppErrorView,
            >(error@),
        },
{
    match codec.verify(token, TokenKind::NotifyBearer, now) {
        Ok(SignedClaims::Notify(claims)) => Ok(claims),
        Ok(SignedClaims::User(_)) => Err(
            AppError::AuthError(String::from_str("Invalid token type")),
        ),
        Err(AuthError::WrongKind) => Err(
            AppError::AuthError(String::from_str("Invalid token type")),
        ),
        Err(_) => Err(AppError::AuthError(String::from_str("Invalid notify token"))),
    }
}

/// Verifies a notify token against the system clock: whatever time the clock
/// gives, the result is what verification at that time gives.
pub fn verify_notify_token(codec: &TokenCodec, token: &str) -> (result: Result<
    TokenClaims,
    AppError,
>)
    ensures
        exists|now: int|
            match result {
                Ok(claims) => #[trigger] notify_token_verdict(token@, codec.key(), now) == Ok::<
                    TokenClaimsView,
                    AppErrorView,
                >(claims@),
                Err(error) => notify_token_verdict(token@, codec.key(), now) == Err::<
                    TokenClaimsView,
                    AppErrorView,
                >(error@),
            },
{
    let now = unix_now();
    verify_notify_token_at(codec, token, now)
}

/// The check at the handshake of a connection, on the signature alone.
pub fn verify_ws_token_jwt(codec: &TokenCodec, token: &str) -> (result: Result<
    TokenClaims,
    AppError,
>)
    ensures
        exists|now: int|
            match result {
                Ok(claims) => #[trigger] notify_token_verdict(token@, codec.key(), now) == Ok::<
                    TokenClaimsView,
                    AppErrorView,
                >(claims@),
                Err(error) => notify_token_verdict(token@, codec.key(), now) == Err::<
                    TokenClaimsView,
                    AppErrorView,
                >(error@),
            },
{
    verify_notify_token(codec, token)
}

/// What the full check of a notify token gives: the signature, then the record.
pub open spec fn notify_guard(
    key: Seq<u8>,
    records: Seq<ModelView>,
    token: Seq<char>,
    now: i64,
) -> Result<TokenClaimsView, AppErrorView> {
    match notify_token_verdict(token, key, now as int) {
        Err(error) => Err(error),
        Ok(claims) => if holds_live(records, token_hash(token), now) {
            Ok(claims)
        } else {
            Err(AppErrorView::AuthError("Token not found or expired"@))
        },
    }
}

/// The check at the handshake of a connection: the signature must verify
/// and the token must be on record, unexpired. Nothing is changed.
pub fn verify_ws_token(codec: &TokenCodec, state: &TokenStore, token: &str, now: i64) -> (result:
    Result<TokenClaims, AppError>)
    ensures
        match result {
            Ok(claims) => notify_guard(codec.key(), state@, token@, now) == Ok::<
                TokenClaimsView,
                AppErrorView,
            >(claims@),
            Err(error) => notify_guard(codec.key(), state@, token@, now) == Err::<
                TokenClaimsView,
                AppErrorView,
            >(error@),
        },
{
    let claims = match verify_notify_token_at(codec, token, now) {
        Ok(claims) => claims,
        Err(error) => {
            return Err(error);
        },
    };
    let digest = generate_token_hash(token);
    if !state.exists_and_valid(digest.as_str(), now) {
        return Err(AppError::AuthError(String::from_str("Token not found or expired")));
    }
    Ok(claims)
}

/// Whether a bearer string is on record, unexpired, whatever its signature.
pub fn check_token_exists(state: &TokenStore, token: &str, now: i64) -> (live: bool)
    ensures
        live == holds_live(state@, token_hash(token@), now),
{
    let digest = generate_token_hash(token);
    state.exists_and_valid(digest.as_str(), now)
}

/// What an `Authorization` header of the scheme `Bearer` holds.
pub open spec fn bearer_of(header: Option<Seq<char>>) -> Result<Seq<char>, AppErrorView> {
    match header {
        None => Err(AppErrorView::AuthError("Missing authorization header"@)),
        Some(value) => if !has_prefix(value, "Bearer "@) {
            Err(AppErrorView::AuthError("Invalid authorization header format"@))
        } else {
            Ok(without_leading(value, "Bearer "@))
        },
    }
}

/// Reads the bearer string from the value of an `Authorization` header;
/// `None` stands for a request without the header.
pub fn extract_bearer_token(header: Option<&str>) -> (result: Result<BearerToken, AppError>)
    ensures
        match result {
            Ok(bearer) => bearer_of(optional_str(header)) == Ok::<Seq<char>, AppErrorView>(
                bearer.0@,
            ),
            Err(error) => bearer_of(optional_str(header)) == Err::<Seq<char>, AppErrorView>(error@),
        },
{
    let value = match header {
        Some(value) => value,
        None => {
            return Err(AppError::AuthError(String::from_str("Missing authorization header")));
        },
    };
    if !starts_with(value, "Bearer ") {
        return Err(AppError::AuthError(String::from_str("Invalid authorization header format")));
    }
    Ok(BearerToken(String::from_str(trim_start_matches(value, "Bearer "))))
}

/// What the guard before the notify routes decides.
pub open spec fn notify_request_guard(
    key: Seq<u8>,
    records: Seq<ModelView>,
    header: Option<Seq<char>>,
    now: i64,
) -> Result<TokenClaimsView, AppErrorView> {
    match bearer_of(header) {
        Err(error) => Err(error),
        Ok(token) => notify_guard(key, records, token, now),
    }
}

/// The guard before the notify routes: the request must carry a notify token
/// that passes the two-factor check. A request that passes has its token
/// stamped as used at `now`; one that does not leaves the store as it was.
pub fn notify_token_middleware(
    codec: &TokenCodec,
    state: &mut TokenStore,
    header: Option<&str>,
    now: i64,
) -> (result: Result<TokenClaims, AppError>)
    requires
        old(state).wf(),
    ensures
        final(state).wf(),
        final(state).next_key() == old(state).next_key(),
        match result {
            Ok(claims) => {
                &&& notify_request_guard(codec.key(), old(state)@, optional_str(header), now)
                    == Ok::<TokenClaimsView, AppErrorView>(claims@)
                &&& bearer_of(optional_str(header)) matches Ok(token)
                &&& final(state)@ == touched(old(state)@, token_hash(token), now)
            },
            Err(error) => {
                &&& notify_request_guard(codec.key(), old(state)@, optional_str(header), now)
                    == Err::<TokenClaimsView, AppErrorView>(error@)
                &&& final(state)@ == old(state)@
            },
        },
{
    let bearer = match extract_bearer_token(header) {
        Ok(bearer) => bearer,
        Err(error) => {
            return Err(error);
        },
    };
    let claims = match verify_ws_token(codec, state, bearer.0.as_str(), now) {
        Ok(claims) => claims,
        Err(error) => {
            return Err(error);
        },
    };
    let digest = generate_token_hash(bearer.0.as_str());
    state.touch_last_used(digest.as_str(), now);
    Ok(claims)
}

/// What verifying a token without a kind tag gives.
pub open spec fn untagged_verdict(token: Seq<char>, key: Seq<u8>, now: int) -> Result<
    ClaimsView,
    AppErrorView,
> {
    match verify_untagged_text(token, key, now) {
        Ok(claims) => Ok(claims),
        Err(_) => Err(AppErrorView::AuthError("Invalid token"@)),
    }
}

/// Verifies, at `now`, a token of the first format, which carries no kind tag.
pub fn verify_token_at(codec: &TokenCodec, token: &str, now: i64) -> (result: Result<
    Claims,
    AppError,
>)
    ensures
        match result {
            Ok(claims) => untagged_verdict(token@, codec.key(), now as int) == Ok::<
                ClaimsView,
                AppErrorView,
            >(claims@),
            Err(error) => untagged_verdict(token@, codec.key(), now as int) == Err::<
                ClaimsView,
                AppErrorView,
            >(error@),
        },
{
    match codec.verify_untagged(token, now) {
        Ok(claims) => Ok(claims),
        Err(_) => Err(AppError::AuthError(String::from_str("Invalid token"))),
    }
}

/// Verifies a token of the first format against the system clock.
pub fn verify_token(codec: &TokenCodec, token: &str) -> (result: Result<Claims, AppError>)
    ensures
        exists|now: int|
            match result {
                Ok(claims) => #[trigger] untagged_verdict(token@, codec.key(), now) == Ok::<
                    ClaimsView,
                    AppErrorView,
                >(claims@),
                Err(error) => untagged_verdict(token@, codec.key(), now) == Err::<
                    ClaimsView,
                    AppErrorView,
                >(error@),
            },
{
    let now = unix_now();
    verify_token_at(codec, token, now)
}

/// What the guard for tokens of the first format decides.
pub open spec fn untagged_request_guard(
    key: Seq<u8>,
    records: Seq<ModelView>,
    header: Option<Seq<char>>,
    now: i64,
) -> Result<ClaimsView, AppErrorView> {
    match bearer_of(header) {
        Err(error) => Err(error),
        Ok(token) => match untagged_verdict(token, key, now as int) {
            Err(error) => Err(error),
            Ok(claims) => if holds_live(records, token_hash(token), now) {
                Ok(claims)
            } else {
                Err(AppErrorView::AuthError("Token not found or expired"@))
            },
        },
    }
}

/// The guard for tokens of the first format: signature, then record. Nothing
/// is changed.
pub fn auth_middleware(
    codec: &TokenCodec,
    state: &TokenStore,
    header: Option<&str>,
    now: i64,
) -> (result: Result<Claims, AppError>)
    ensures
        match result {
            Ok(claims) => untagged_request_guard(codec.key(), state@, optional_str(header), now)
                == Ok::<ClaimsView, AppErrorView>(claims@),
            Err(error) => untagged_request_guard(codec.key(), state@, optional_str(header), now)
                == Err::<ClaimsView, AppErrorView>(error@),
        },
{
    let bearer = match extract_bearer_token(header) {
        Ok(bearer) => bearer,
        Err(error) => {
            return Err(error);
        },
    };
    let claims = match verify_token_at(codec, bearer.0.as_str(), now) {
        Ok(claims) => claims,
        Err(error) => {
            return Err(error);
        },
    };
    let digest = generate_token_hash(bearer.0.as_str());
    if !state.exists_and_valid(digest.as_str(), now) {
        return Err(AppError::AuthError(String::from_str("Token not found or expired")));
    }
    Ok(claims)
}

} // verus!

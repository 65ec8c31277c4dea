use rutify::auth::{
    authorize, check_token_exists, create_token_at, delete_token, extract_bearer_token,
    issue_notify_token, verify_notify_token_at, verify_ws_token, CreateTokenRequest,
};
use rutify::hashing::generate_token_hash;
use rutify::codec::{SignedClaims, TokenClaims, TokenCodec, TokenKind};
use rutify::db::token_ops::TokenStore;
use rutify::error::{AppError, AuthError, ConfigError};

const SECRET: &str = "rutify_default_jwt_secret_change_in_production";

fn codec() -> TokenCodec {
    TokenCodec::new(SECRET).unwrap()
}

#[test]
fn test_generate_token_hash() {
    let token = "test_token";
    let hash1 = generate_token_hash(token);
    let hash2 = generate_token_hash(token);

    assert_eq!(hash1, hash2);
    assert_eq!(hash1.len(), 64);
}

#[test]
fn token_hash_is_sha256_in_lower_hex() {
    assert_eq!(
        generate_token_hash("abc"),
        "ba7816bf8f01cfea414140de5dae2223b00361a396177a9cb410ff61f20015ad"
    );
    assert_ne!(generate_token_hash("abc"), "abc");
}

#[test]
fn test_extract_bearer_token_valid() {
    let result = extract_bearer_token(Some("Bearer test_token"));
    assert!(result.is_ok());
    assert_eq!(result.unwrap().0, "test_token");
}

#[test]
fn test_extract_bearer_token_missing_header() {
    let result = extract_bearer_token(None);
    assert!(result.is_err());
}

#[test]
fn test_extract_bearer_token_invalid_format() {
    let result = extract_bearer_token(Some("Basic test_token"));
    assert!(result.is_err());
}

#[test]
fn weak_secret_is_a_config_error() {
    assert_eq!(TokenCodec::new("short").err(), Some(ConfigError::WeakSecret));
    assert_eq!(
        TokenCodec::new("0123456789012345678901234567890").err(),
        Some(ConfigError::WeakSecret)
    );
    assert!(TokenCodec::new("01234567890123456789012345678901").is_ok());
    assert_eq!(TokenCodec::from_setting(None).err(), Some(ConfigError::MissingSecret));
}

fn notify_claims(exp: i64) -> TokenClaims {
    TokenClaims {
        sub: "7".to_string(),
        usage: "sensor-1".to_string(),
        token_type: "notify_bearer".to_string(),
        iat: 1_000,
        exp,
        jti: "b1c7".to_string(),
    }
}

#[test]
fn issued_claims_verify_to_themselves() {
    let codec = codec();
    let claims = SignedClaims::Notify(notify_claims(5_000));
    let token = codec.issue(&claims).unwrap();
    assert_eq!(token.split('.').count(), 3);
    assert_eq!(codec.verify(&token, TokenKind::NotifyBearer, 2_000), Ok(claims));
}

#[test]
fn expiry_allows_sixty_seconds_of_skew() {
    let codec = codec();
    let token = codec.issue(&SignedClaims::Notify(notify_claims(5_000))).unwrap();
    assert!(codec.verify(&token, TokenKind::NotifyBearer, 5_060).is_ok());
    assert_eq!(
        codec.verify(&token, TokenKind::NotifyBearer, 5_061),
        Err(AuthError::Expired)
    );
}

#[test]
fn wrong_kind_and_bad_signature_are_told_apart() {
    let codec = codec();
    let token = codec.issue(&SignedClaims::Notify(notify_claims(5_000))).unwrap();
    assert_eq!(
        codec.verify(&token, TokenKind::UserSession, 2_000),
        Err(AuthError::WrongKind)
    );
    let other = TokenCodec::new("another_secret_of_at_least_32_bytes!").unwrap();
    assert_eq!(
        other.verify(&token, TokenKind::NotifyBearer, 2_000),
        Err(AuthError::InvalidSignature)
    );
    assert_eq!(
        codec.verify("not.a.token", TokenKind::NotifyBearer, 2_000),
        Err(AuthError::InvalidSignature)
    );
}

#[test]
fn a_token_without_a_record_is_refused() {
    let codec = codec();
    let store = TokenStore::new();
    let token = codec.issue(&SignedClaims::Notify(notify_claims(5_000))).unwrap();
    assert!(verify_notify_token_at(&codec, &token, 2_000).is_ok());
    assert_eq!(
        authorize(&codec, &store, &token, TokenKind::NotifyBearer, 2_000),
        Err(AuthError::Unauthorized)
    );
    assert!(!check_token_exists(&store, &token, 2_000));
}

#[test]
fn deleting_a_token_revokes_it_before_expiry() {
    let codec = codec();
    let mut store = TokenStore::new();
    let (token, record) = issue_notify_token(
        &codec, &mut store, "sensor-1", Some(1), None, None, 1_000, "jti-1",
    )
    .unwrap();
    assert_eq!(record.expires_at, 4_600);
    assert_eq!(record.id, 1);
    assert!(authorize(&codec, &store, &token, TokenKind::NotifyBearer, 2_000).is_ok());
    assert_eq!(delete_token(&mut store, record.id), 200);
    assert_eq!(delete_token(&mut store, record.id), 404);
    assert!(verify_notify_token_at(&codec, &token, 2_000).is_ok());
    assert_eq!(
        authorize(&codec, &store, &token, TokenKind::NotifyBearer, 2_000),
        Err(AuthError::Unauthorized)
    );
    assert!(verify_ws_token(&codec, &store, &token, 2_000).is_err());
}

#[test]
fn default_lifetime_is_a_day() {
    let codec = codec();
    let mut store = TokenStore::new();
    let request = CreateTokenRequest {
        usage: "api".to_string(),
        expires_in_hours: None,
        device_info: Some("phone".to_string()),
    };
    let response = create_token_at(&codec, &mut store, &request, None, 0, "jti-2").unwrap();
    assert_eq!(response.token_id, "1");
    assert_eq!(response.usage, "api");
    assert_eq!(response.token_type, "notify_bearer");
    assert_eq!(response.expires_at, "1970-01-02 00:00:00 UTC");
    assert!(check_token_exists(&store, &response.token, 86_399));
    assert!(!check_token_exists(&store, &response.token, 86_400));
}

#[test]
fn a_lifetime_beyond_the_clock_is_a_validation_error() {
    let codec = codec();
    let mut store = TokenStore::new();
    let request = CreateTokenRequest {
        usage: "api".to_string(),
        expires_in_hours: Some(u64::MAX),
        device_info: None,
    };
    assert_eq!(
        create_token_at(&codec, &mut store, &request, None, 0, "jti-3"),
        Err(AppError::Validation("expires_in_hours".to_string()))
    );
    assert_eq!(store.len(), 0);
}

#[test]
fn test_create_and_verify_token() {
    let codec = codec();
    let mut store = TokenStore::new();
    let request = CreateTokenRequest {
        usage: "api".to_string(),
        expires_in_hours: Some(2),
        device_info: None,
    };
    let response = rutify::auth::create_token(&codec, &mut store, &request, None).unwrap();
    let claims = rutify::auth::verify_notify_token(&codec, &response.token).unwrap();
    assert_eq!(claims.sub, response.token_id);
    assert_eq!(claims.usage, "api");
    assert_eq!(claims.exp - claims.iat, 7_200);
    assert_eq!(rutify::auth::verify_ws_token_jwt(&codec, &response.token), Ok(claims.clone()));
    assert_eq!(uuid::Uuid::parse_str(&claims.jti).map(|id| id.to_string()), Ok(claims.jti));
    let now = chrono::Utc::now().timestamp();
    assert!((claims.iat - now).abs() <= 5);
    assert!(check_token_exists(&store, &response.token, now));
    let untagged = rutify::auth::verify_token(&codec, &response.token).unwrap();
    assert_eq!(untagged.sub, claims.sub);
    assert_eq!(untagged.exp, claims.exp);
}

#[test]
fn a_created_token_passes_the_check_until_it_expires() {
    let codec = codec();
    let mut store = TokenStore::new();
    let request = CreateTokenRequest {
        usage: "api".to_string(),
        expires_in_hours: Some(2),
        device_info: None,
    };
    let response = rutify::auth::create_token(&codec, &mut store, &request, None).unwrap();
    assert_eq!(store.peek_next_key(), 2);
    let record = rutify::db::token_ops::list_all_tokens(&store)[0].clone();
    assert!(0 <= record.created_at);
    assert_eq!(record.expires_at, record.created_at + 7_200);
    let kind = TokenKind::NotifyBearer;
    assert!(authorize(&codec, &store, &response.token, kind, 0).is_ok());
    assert!(authorize(&codec, &store, &response.token, kind, record.created_at).is_ok());
    assert!(authorize(&codec, &store, &response.token, kind, record.expires_at - 1).is_ok());
    assert_eq!(
        authorize(&codec, &store, &response.token, kind, record.expires_at),
        Err(AuthError::Unauthorized)
    );
    let second = rutify::auth::create_token(&codec, &mut store, &request, None).unwrap();
    assert_eq!(second.token_id, "2");
    assert_eq!(store.peek_next_key(), 3);
}

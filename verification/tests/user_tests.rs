use rutify::auth::{
    auth_middleware, authorize, authorize_with_reason, get_tokens, issue_notify_token,
    notify_token_middleware, verify_token_at, Denial,
};
use rutify::codec::{Claims, SignedClaims, TokenCodec, TokenKind, UserClaims};
use rutify::db::token_ops::TokenStore;
use rutify::db::users::{UserDirectory, UserRole};
use rutify::error::{AppError, AuthError};
use rutify::user::{
    create_user_jwt_token, decode_credentials, extract_basic_auth, extract_user_jwt,
    get_user_profile, hash_password_with_cost, login_user, login_user_at, register_user,
    register_user_with, split_credentials, user_auth_middleware, verify_password,
    verify_user_jwt_token_at, BasicAuth, LoginRequest, RegisterRequest,
};

const SECRET: &str = "rutify_default_jwt_secret_change_in_production";

fn codec() -> TokenCodec {
    TokenCodec::new(SECRET).unwrap()
}

fn registration(username: &str) -> RegisterRequest {
    RegisterRequest {
        username: username.to_string(),
        password: "hunter2".to_string(),
        email: format!("{}@example.org", username),
    }
}

fn auth_error(detail: &str) -> AppError {
    AppError::AuthError(detail.to_string())
}

#[test]
fn a_password_is_stored_as_a_digest_that_accepts_it() {
    let digest = hash_password_with_cost("hunter2", 4).unwrap();
    assert_ne!(digest, "hunter2");
    assert!(digest.starts_with("$2b$04$"));
    assert_eq!(verify_password("hunter2", &digest), Ok(true));
    assert_eq!(verify_password("hunter3", &digest), Ok(false));
    assert_eq!(
        verify_password("hunter2", "no digest"),
        Err(auth_error("Failed to verify password"))
    );
    assert_eq!(
        hash_password_with_cost("hunter2", 3),
        Err(auth_error("Failed to process password"))
    );
    assert_eq!(
        verify_password("password", "$2a$04$UuTkLRZZ6QofpDOlMz32MuuxEHA43WOemOYHPz6.SjsVsyO1tDU96"),
        Ok(true)
    );
}

#[test]
fn the_second_registration_of_a_username_is_a_conflict() {
    let mut users = UserDirectory::new();
    let first = register_user(&mut users, &registration("ada"), 4).unwrap();
    assert_eq!(first.username, "ada");
    assert_eq!(first.email, "ada@example.org");
    assert_eq!(first.role, UserRole::User);
    let stored = users.find_by_username("ada").unwrap();
    assert_eq!(stored.id, first.id);
    let again = RegisterRequest { password: "other".to_string(), ..registration("ada") };
    assert_eq!(
        register_user(&mut users, &again, 4),
        Err(AppError::Conflict("Username already exists".to_string()))
    );
    assert_eq!(users.len(), 1);
    assert_eq!(users.find_by_username("ada"), Some(stored.clone()));
    assert_eq!(verify_password("hunter2", &stored.password_hash), Ok(true));
    assert_eq!(users.find_by_id(first.id), Some(stored));
    assert_eq!(users.find_by_username("bob"), None);
}

#[test]
fn a_registration_with_given_values_is_exact() {
    let mut users = UserDirectory::new();
    let response =
        register_user_with(&mut users, &registration("ada"), "digest".to_string(), 5, 86_400)
            .unwrap();
    assert_eq!(response.id, 5);
    assert_eq!(response.created_at, "1970-01-02 00:00:00 +00:00");
    assert_eq!(
        register_user_with(&mut users, &registration("bob"), "digest".to_string(), 5, 1),
        Err(AppError::DatabaseError("Failed to create user".to_string()))
    );
    assert_eq!(users.len(), 1);
}

#[test]
fn login_failures_read_the_same() {
    let codec = codec();
    let mut users = UserDirectory::new();
    register_user(&mut users, &registration("ada"), 4).unwrap();
    let unknown = login_user(
        &users,
        &codec,
        &LoginRequest { username: "nobody".to_string(), password: "hunter2".to_string() },
    );
    let wrong = login_user(
        &users,
        &codec,
        &LoginRequest { username: "ada".to_string(), password: "wrong".to_string() },
    );
    assert_eq!(unknown, Err(auth_error("Invalid username or password")));
    assert_eq!(unknown, wrong);
    let unknown_response = unknown.unwrap_err().into_response();
    assert_eq!(unknown_response, wrong.unwrap_err().into_response());
    assert_eq!(unknown_response, (401, "Unauthorized".to_string()));
}

#[test]
fn a_login_gives_a_session_token_for_seven_days() {
    let codec = codec();
    let mut users = UserDirectory::new();
    let user = register_user(&mut users, &registration("ada"), 4).unwrap();
    let request = LoginRequest { username: "ada".to_string(), password: "hunter2".to_string() };
    let response = login_user_at(&users, &codec, &request, 0, "jti-1").unwrap();
    assert_eq!(response.user_id, user.id);
    assert_eq!(response.username, "ada");
    assert_eq!(response.role, UserRole::User);
    assert_eq!(response.expires_at, "1970-01-08 00:00:00 UTC");
    let claims = verify_user_jwt_token_at(&codec, &response.jwt_token, 100).unwrap();
    assert_eq!(claims.username, "ada");
    assert_eq!(claims.iat, 0);
    assert_eq!(claims.exp, 604_800);
    assert_eq!(claims.jti, "jti-1");
    assert_eq!(claims.token_type, "user_jwt");
    assert_eq!(claims.sub, uuid::Uuid::from_u128(user.id).to_string());
    assert_eq!(get_user_profile(&users, &claims).unwrap().username, "ada");
    assert_eq!(
        verify_user_jwt_token_at(&codec, &response.jwt_token, 604_861),
        Err(auth_error("Invalid user token"))
    );
    let store = TokenStore::new();
    assert!(authorize(&codec, &store, &response.jwt_token, TokenKind::UserSession, 100).is_ok());
    assert_eq!(
        authorize_with_reason(&codec, &store, &response.jwt_token, TokenKind::NotifyBearer, 100),
        Err(Denial::WrongKind)
    );
}

#[test]
fn the_user_guard_wants_a_token_of_a_user_that_exists() {
    let codec = codec();
    let mut users = UserDirectory::new();
    let user = register_user(&mut users, &registration("ada"), 4).unwrap();
    let stored = users.find_by_id(user.id).unwrap();
    let token = create_user_jwt_token(&codec, &stored, 0, "jti").unwrap();
    let header = format!("Bearer {}", token);
    let (found, claims) = user_auth_middleware(&users, &codec, Some(&header), 10).unwrap();
    assert_eq!(found, stored);
    assert_eq!(claims.username, "ada");
    assert_eq!(extract_user_jwt(&codec, Some(&header), 10).unwrap().0, claims);
    assert_eq!(
        user_auth_middleware(&users, &codec, None, 10),
        Err(auth_error("Missing authorization header"))
    );
    assert_eq!(
        user_auth_middleware(&users, &codec, Some(&token), 10),
        Err(auth_error("Invalid authorization header format"))
    );
    let empty = UserDirectory::new();
    assert_eq!(
        user_auth_middleware(&empty, &codec, Some(&header), 10),
        Err(auth_error("User not found"))
    );
    let odd = UserClaims { sub: "not-a-uuid".to_string(), ..claims };
    assert_eq!(get_user_profile(&users, &odd), Err(auth_error("Invalid user ID")));
    let signed = codec.issue(&SignedClaims::User(odd)).unwrap();
    assert_eq!(
        user_auth_middleware(&users, &codec, Some(&format!("Bearer {}", signed)), 10),
        Err(auth_error("Invalid user ID"))
    );
}

#[test]
fn basic_credentials_part_at_the_first_colon() {
    assert_eq!(
        extract_basic_auth(Some("Basic YWRhOnNlY3JldDp4")),
        Ok(BasicAuth { username: "ada".to_string(), password: "secret:x".to_string() })
    );
    assert_eq!(
        extract_basic_auth(Some("Basic Basic YWRhOg==")),
        Ok(BasicAuth { username: "ada".to_string(), password: String::new() })
    );
    assert_eq!(extract_basic_auth(None), Err(auth_error("Missing authorization header")));
    assert_eq!(
        extract_basic_auth(Some("Bearer YWRhOnNlY3JldA==")),
        Err(auth_error("Invalid authorization header format"))
    );
    assert_eq!(
        extract_basic_auth(Some("Basic ***")),
        Err(auth_error("Invalid base64 encoding"))
    );
    assert_eq!(
        extract_basic_auth(Some("Basic /w==")),
        Err(auth_error("Invalid UTF-8 encoding"))
    );
    assert_eq!(extract_basic_auth(Some("Basic YWRh")), Err(auth_error("Missing password")));
}

#[test]
fn the_notify_guard_stamps_the_token_that_passes() {
    let codec = codec();
    let mut store = TokenStore::new();
    let (token, record) =
        issue_notify_token(&codec, &mut store, "sensor-1", None, None, Some(3), 1_000, "j")
            .unwrap();
    assert_eq!(record.user_id, Some(3));
    assert_eq!(record.expires_at, 87_400);
    let header = format!("Bearer {}", token);
    let claims = notify_token_middleware(&codec, &mut store, Some(&header), 2_000).unwrap();
    assert_eq!(claims.sub, "1");
    assert_eq!(claims.usage, "sensor-1");
    assert_eq!(claims.token_type, "notify_bearer");
    assert_eq!(claims.iat, 1_000);
    assert_eq!(claims.exp, 87_400);
    let shown = get_tokens(&store);
    assert_eq!(shown.len(), 1);
    assert_eq!(shown[0].id, 1);
    assert_eq!(shown[0].token_type, "notify_bearer");
    assert_eq!(shown[0].created_at, "1970-01-01 00:16:40 UTC");
    assert_eq!(shown[0].last_used_at, Some("1970-01-01 00:33:20 UTC".to_string()));
    assert_eq!(
        notify_token_middleware(&codec, &mut store, Some(&header), 87_400),
        Err(auth_error("Token not found or expired"))
    );
    assert_eq!(
        notify_token_middleware(&codec, &mut store, Some(&header), 87_461),
        Err(auth_error("Invalid notify token"))
    );
    assert_eq!(
        notify_token_middleware(&codec, &mut store, Some("Bearer junk"), 2_000),
        Err(auth_error("Invalid notify token"))
    );
    assert_eq!(get_tokens(&store)[0].last_used_at, Some("1970-01-01 00:33:20 UTC".to_string()));
    assert_eq!(
        authorize_with_reason(&codec, &store, &token, TokenKind::NotifyBearer, 87_400),
        Err(Denial::Revoked)
    );
    assert_eq!(
        authorize_with_reason(&codec, &store, &token, TokenKind::NotifyBearer, 87_461),
        Err(Denial::Expired)
    );
    assert_eq!(
        authorize_with_reason(&codec, &store, "junk", TokenKind::NotifyBearer, 0),
        Err(Denial::InvalidSignature)
    );
    assert_eq!(
        authorize(&codec, &store, "junk", TokenKind::NotifyBearer, 0),
        Err(AuthError::Unauthorized)
    );
}

#[test]
fn tokens_without_a_kind_tag_verify_by_signature_and_expiry() {
    let codec = codec();
    let claims = Claims {
        sub: "id".to_string(),
        usage: "api".to_string(),
        iat: 10,
        exp: 1_000,
        jti: "j".to_string(),
    };
    let token = codec.issue_untagged(&claims).unwrap();
    assert_eq!(verify_token_at(&codec, &token, 1_060), Ok(claims.clone()));
    assert_eq!(verify_token_at(&codec, &token, 1_061), Err(auth_error("Invalid token")));
    assert_eq!(codec.verify_untagged(&token, 1_061), Err(AuthError::Expired));
    assert_eq!(codec.verify_untagged("x.y.z", 0), Err(AuthError::InvalidSignature));
    let mut store = TokenStore::new();
    let header = format!("Bearer {}", token);
    assert_eq!(
        auth_middleware(&codec, &store, Some(&header), 500),
        Err(auth_error("Token not found or expired"))
    );
    let digest = rutify::hashing::generate_token_hash(&token);
    rutify::db::token_ops::create_notify_token(&mut store, &digest, "api", 1_000, None, 10)
        .unwrap();
    assert_eq!(auth_middleware(&codec, &store, Some(&header), 500), Ok(claims));
    assert_eq!(
        codec.verify(&token, TokenKind::NotifyBearer, 500),
        Err(AuthError::InvalidSignature)
    );
}

#[test]
fn errors_answer_with_their_status() {
    let text = |detail: &str| detail.to_string();
    assert_eq!(AppError::Db(text("x")).into_response(), (500, text("database errors")));
    assert_eq!(AppError::Json(text("x")).into_response(), (400, text("json errors")));
    assert_eq!(AppError::AuthError(text("why")).into_response(), (401, text("Unauthorized")));
    assert_eq!(AppError::DatabaseError(text("x")).into_response(), (500, text("database errors")));
    assert_eq!(AppError::Conflict(text("taken")).into_response(), (409, text("taken")));
    assert_eq!(
        AppError::Validation(text("usage")).into_response(),
        (422, text("invalid field: usage"))
    );
    assert_eq!(AppError::AuthError(text("why")).to_string(), "Authentication errors: why");
    assert_eq!(AppError::Db(text("d")).to_string(), "Database errors: d");
    assert_eq!(AppError::Json(text("j")).to_string(), "JSON errors: j");
    assert_eq!(AppError::DatabaseError(text("o")).to_string(), "Database operation errors: o");
    assert_eq!(AppError::from_auth(AuthError::Expired), AppError::AuthError(text("Token expired")));
    assert_eq!(
        AppError::from_auth(AuthError::Conflict),
        AppError::Conflict(text("Username already exists"))
    );
    for error in [AuthError::InvalidSignature, AuthError::Expired, AuthError::WrongKind] {
        assert_eq!(
            AppError::from_auth(error).into_response(),
            AppError::from_auth(AuthError::Unauthorized).into_response()
        );
    }
}

#[test]
fn a_directory_is_taken_back_from_its_users() {
    let user = |id: u128, name: &str| rutify::db::users::Model {
        id,
        username: name.to_string(),
        password_hash: "digest".to_string(),
        email: "e".to_string(),
        role: UserRole::Admin,
        created_at: 1,
        updated_at: 2,
    };
    let mut users = UserDirectory::restore(vec![user(1, "ada"), user(2, "bob")]).unwrap();
    assert_eq!(users.list(), vec![user(1, "ada"), user(2, "bob")]);
    assert!(!users.insert(user(3, "ada")));
    assert!(!users.insert(user(1, "cy")));
    assert!(users.insert(user(3, "cy")));
    assert_eq!(users.len(), 3);
    assert!(UserDirectory::restore(vec![user(1, "ada"), user(1, "bob")]).is_none());
    assert!(UserDirectory::restore(vec![user(1, "ada"), user(2, "ada")]).is_none());
    assert_eq!(UserRole::from_name("Admin"), Some(UserRole::Admin));
    assert_eq!(UserRole::from_name("User"), Some(UserRole::User));
    assert_eq!(UserRole::from_name("admin"), None);
    assert_eq!(UserRole::Admin.as_str(), "Admin");
}

#[test]
fn credentials_are_parted_once_and_by_characters() {
    let parted = |username: &str, password: &str| {
        Ok(BasicAuth { username: username.to_string(), password: password.to_string() })
    };
    assert_eq!(split_credentials("ada:secret"), parted("ada", "secret"));
    assert_eq!(split_credentials("ada:secret:x"), parted("ada", "secret:x"));
    assert_eq!(split_credentials(":secret"), parted("", "secret"));
    assert_eq!(split_credentials("ada:"), parted("ada", ""));
    assert_eq!(split_credentials(":"), parted("", ""));
    assert_eq!(split_credentials("zo\u{eb}:pass\u{e9}"), parted("zo\u{eb}", "pass\u{e9}"));
    assert_eq!(split_credentials("ada"), Err(auth_error("Missing password")));
    assert_eq!(split_credentials(""), Err(auth_error("Missing password")));
}

#[test]
fn decoded_credentials_must_be_text_with_a_colon() {
    assert_eq!(
        decode_credentials(b"ada:secret".to_vec()),
        Ok(BasicAuth { username: "ada".to_string(), password: "secret".to_string() })
    );
    assert_eq!(
        decode_credentials("zo\u{eb}:x".as_bytes().to_vec()),
        Ok(BasicAuth { username: "zo\u{eb}".to_string(), password: "x".to_string() })
    );
    assert_eq!(decode_credentials(vec![0xff, 0x3a]), Err(auth_error("Invalid UTF-8 encoding")));
    assert_eq!(decode_credentials(vec![0xc3]), Err(auth_error("Invalid UTF-8 encoding")));
    assert_eq!(decode_credentials(b"ada".to_vec()), Err(auth_error("Missing password")));
    assert_eq!(decode_credentials(Vec::new()), Err(auth_error("Missing password")));
}

#[test]
fn a_cost_that_cannot_be_used_registers_nobody() {
    let mut users = UserDirectory::new();
    assert_eq!(
        register_user(&mut users, &registration("ada"), 3),
        Err(auth_error("Failed to process password"))
    );
    assert_eq!(
        register_user(&mut users, &registration("ada"), 32),
        Err(auth_error("Failed to process password"))
    );
    assert_eq!(users.len(), 0);
    assert_eq!(
        hash_password_with_cost("hunter2", 3),
        Err(auth_error("Failed to process password"))
    );
    register_user(&mut users, &registration("ada"), 4).unwrap();
    assert_eq!(
        register_user(&mut users, &registration("ada"), 3),
        Err(AppError::Conflict("Username already exists".to_string()))
    );
    assert_eq!(users.len(), 1);
}

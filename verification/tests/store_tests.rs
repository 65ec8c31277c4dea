use rutify::db::token_ops::{
    cleanup_expired_tokens, create_notify_token, create_user_token, delete_token_by_hash,
    delete_token_by_id, delete_user_tokens, get_user_tokens, list_all_tokens,
    list_tokens_by_type, list_tokens_by_usage, update_token_last_used, verify_token_exists,
    Selector, TokenStore,
};
use rutify::db::tokens::TokenType;
use rutify::error::StorageError;

fn ids(records: &[rutify::db::tokens::Model]) -> Vec<i32> {
    records.iter().map(|record| record.id).collect()
}

fn filled() -> TokenStore {
    let mut store = TokenStore::new();
    create_notify_token(&mut store, "h1", "sensor", 100, None, 10).unwrap();
    create_notify_token(&mut store, "h2", "phone", 200, Some("pixel".to_string()), 30).unwrap();
    create_user_token(&mut store, "h3", 77, 300, 20).unwrap();
    create_notify_token(&mut store, "h4", "sensor", 400, None, 30).unwrap();
    store
}

#[test]
fn created_records_get_rising_ids_and_the_given_fields() {
    let mut store = TokenStore::new();
    let first = create_notify_token(&mut store, "h1", "sensor", 100, None, 10).unwrap();
    assert_eq!(first.id, 1);
    assert_eq!(first.token_hash, "h1");
    assert_eq!(first.usage, "sensor");
    assert_eq!(first.token_type, TokenType::NotifyBearer);
    assert_eq!(first.user_id, None);
    assert_eq!(first.created_at, 10);
    assert_eq!(first.expires_at, 100);
    assert_eq!(first.last_used_at, None);
    let second = create_user_token(&mut store, "h2", 9, 50, 11).unwrap();
    assert_eq!(second.id, 2);
    assert_eq!(second.usage, "user_auth");
    assert_eq!(second.token_type, TokenType::UserJwt);
    assert_eq!(second.user_id, Some(9));
    assert_eq!(store.len(), 2);
}

#[test]
fn a_digest_that_is_present_is_a_conflict() {
    let mut store = filled();
    assert_eq!(
        create_notify_token(&mut store, "h2", "other", 999, None, 50),
        Err(StorageError::Duplicate)
    );
    assert_eq!(store.len(), 4);
    assert!(store.contains_hash("h2"));
    assert!(!store.contains_hash("h9"));
}

#[test]
fn a_record_counts_only_before_its_expiry() {
    let store = filled();
    assert!(verify_token_exists(&store, "h1", 99));
    assert!(!verify_token_exists(&store, "h1", 100));
    assert!(!verify_token_exists(&store, "h1", 101));
    assert!(!verify_token_exists(&store, "nope", 0));
    assert_eq!(store.len(), 4);
}

#[test]
fn touching_stamps_one_record_only() {
    let mut store = filled();
    update_token_last_used(&mut store, "h2", 55);
    update_token_last_used(&mut store, "absent", 56);
    let all = list_all_tokens(&store);
    for record in &all {
        if record.token_hash == "h2" {
            assert_eq!(record.last_used_at, Some(55));
        } else {
            assert_eq!(record.last_used_at, None);
        }
    }
    assert_eq!(all.len(), 4);
}

#[test]
fn deleting_is_idempotent() {
    let mut store = filled();
    assert!(delete_token_by_id(&mut store, 2));
    assert!(!delete_token_by_id(&mut store, 2));
    assert!(!delete_token_by_id(&mut store, 99));
    assert_eq!(delete_token_by_hash(&mut store, "h1"), 1);
    assert_eq!(delete_token_by_hash(&mut store, "h1"), 0);
    assert_eq!(delete_user_tokens(&mut store, 77), 1);
    assert_eq!(delete_user_tokens(&mut store, 77), 0);
    assert_eq!(ids(&list_all_tokens(&store)), vec![4]);
}

#[test]
fn the_sweep_removes_exactly_what_expired_before_its_time() {
    let mut store = filled();
    assert_eq!(cleanup_expired_tokens(&mut store, 200), 1);
    assert_eq!(ids(&list_all_tokens(&store)), vec![2, 4, 3]);
    assert_eq!(cleanup_expired_tokens(&mut store, 200), 0);
    assert_eq!(cleanup_expired_tokens(&mut store, 201), 1);
    assert_eq!(cleanup_expired_tokens(&mut store, i64::MAX), 2);
    assert_eq!(store.len(), 0);
    let record = create_notify_token(&mut store, "h1", "again", 5, None, 1).unwrap();
    assert_eq!(record.id, 5);
}

#[test]
fn lists_are_ordered_newest_first() {
    let store = filled();
    assert_eq!(ids(&list_all_tokens(&store)), vec![2, 4, 3, 1]);
    assert_eq!(ids(&list_tokens_by_usage(&store, "sensor")), vec![4, 1]);
    assert_eq!(ids(&list_tokens_by_usage(&store, "none")), Vec::<i32>::new());
    assert_eq!(ids(&list_tokens_by_type(&store, TokenType::NotifyBearer)), vec![2, 4, 1]);
    assert_eq!(ids(&list_tokens_by_type(&store, TokenType::UserJwt)), vec![3]);
    assert_eq!(ids(&get_user_tokens(&store, 77)), vec![3]);
    assert_eq!(ids(&get_user_tokens(&store, 78)), Vec::<i32>::new());
    assert_eq!(ids(&store.select(&Selector::ExpiredBefore(250))), vec![2, 1]);
    assert_eq!(ids(&store.select(&Selector::Id(3))), vec![3]);
    assert_eq!(ids(&store.select(&Selector::Hash("h4".to_string()))), vec![4]);
}

#[test]
fn kinds_have_their_names() {
    assert_eq!(TokenType::UserJwt.as_str(), "user_jwt");
    assert_eq!(TokenType::NotifyBearer.as_str(), "notify_bearer");
    assert_eq!(TokenType::NotifyBearer.to_kind(), rutify::codec::TokenKind::NotifyBearer);
    assert_eq!(TokenType::UserJwt.to_kind(), rutify::codec::TokenKind::UserSession);
}

fn record(id: i32, hash: &str) -> rutify::db::tokens::Model {
    rutify::db::tokens::Model {
        id,
        token_hash: hash.to_string(),
        usage: "u".to_string(),
        token_type: TokenType::NotifyBearer,
        user_id: None,
        device_info: None,
        created_at: 0,
        expires_at: 10,
        last_used_at: None,
    }
}

#[test]
fn a_store_is_taken_back_from_its_records() {
    let mut store = TokenStore::restore(vec![record(7, "a"), record(3, "b")]).unwrap();
    assert_eq!(store.len(), 2);
    assert_eq!(store.peek_next_key(), 8);
    let next = create_notify_token(&mut store, "c", "u", 1, None, 0).unwrap();
    assert_eq!(next.id, 8);
    assert!(TokenStore::restore(vec![record(1, "a"), record(1, "b")]).is_none());
    assert!(TokenStore::restore(vec![record(1, "a"), record(2, "a")]).is_none());
    assert!(TokenStore::restore(vec![record(0, "a")]).is_none());
    assert!(TokenStore::restore(vec![record(i32::MAX, "a")]).is_none());
    assert_eq!(TokenStore::restore(Vec::new()).unwrap().len(), 0);
}

#[test]
fn a_store_without_a_free_key_takes_no_more_records() {
    let mut store = TokenStore::restore(vec![record(i32::MAX - 1, "a")]).unwrap();
    assert_eq!(
        create_notify_token(&mut store, "b", "u", 1, None, 0),
        Err(StorageError::KeysExhausted)
    );
    assert_eq!(
        create_notify_token(&mut store, "a", "u", 1, None, 0),
        Err(StorageError::Duplicate)
    );
    assert_eq!(store.len(), 1);
}

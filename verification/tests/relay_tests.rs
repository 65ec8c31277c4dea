use rutify::auth::{delete_token, issue_notify_token};
use rutify::broadcaster::{BroadcastError, Broadcaster, Received};
use rutify::codec::TokenCodec;
use rutify::db::notifies::NotificationStore;
use rutify::db::token_ops::{list_all_tokens, TokenStore};
use rutify::error::AppError;
use rutify::ingest::{
    delete_all_notifies_handler, delete_notify_by_id_handler, list_notifies_handler,
    normalize_notification, publish_notification, receive_notify_logic, stats_handler,
    store_notification,
};
use rutify::model::{NotificationData, NotificationInput, NotifyEvent, Stats};
use rutify::service::{apply_notifies_to_ui, notify_model, recent_notifies, resolve_service_addr};
use rutify::session::{ConnectionSession, SessionAction, SessionState, TransportEvent, WsQuery};

const SECRET: &str = "rutify_default_jwt_secret_change_in_production";

fn event(message: &str) -> NotifyEvent {
    NotifyEvent {
        event: "notify".to_string(),
        data: NotificationData {
            notify: message.to_string(),
            title: "t".to_string(),
            device: "d".to_string(),
        },
        timestamp: 1,
    }
}

fn input(message: &str, title: Option<&str>, device: Option<&str>) -> NotificationInput {
    NotificationInput {
        notify: message.to_string(),
        title: title.map(|text| text.to_string()),
        device: device.map(|text| text.to_string()),
    }
}

#[test]
fn publishing_without_subscribers_succeeds_and_leaves_nothing() {
    let mut bus = Broadcaster::new(4);
    for i in 0..10 {
        assert_eq!(bus.publish(event(&format!("m{}", i))), Ok(0));
    }
    assert_eq!(bus.retained_count(), 0);
    assert_eq!(bus.subscriber_count(), 0);
    let mut late = bus.subscribe().unwrap();
    assert_eq!(late.position(), 0);
    assert_eq!(bus.try_recv(&mut late), Received::Empty);
    assert_eq!(bus.publish(event("after")), Ok(1));
    assert_eq!(bus.try_recv(&mut late), Received::Event(event("after")));
    assert_eq!(bus.try_recv(&mut late), Received::Empty);
}

#[test]
fn a_slow_subscriber_is_told_its_lag_and_goes_on() {
    let mut bus = Broadcaster::new(3);
    let mut slow = bus.subscribe().unwrap();
    let mut fast = bus.subscribe().unwrap();
    assert_eq!(bus.subscriber_count(), 2);
    for i in 0..5 {
        assert_eq!(bus.publish(event(&format!("m{}", i))), Ok(2));
        assert_eq!(bus.try_recv(&mut fast), Received::Event(event(&format!("m{}", i))));
    }
    assert_eq!(bus.retained_count(), 3);
    assert_eq!(bus.try_recv(&mut slow), Received::Lagged(2));
    assert_eq!(bus.try_recv(&mut slow), Received::Event(event("m2")));
    assert_eq!(bus.try_recv(&mut slow), Received::Event(event("m3")));
    assert_eq!(bus.try_recv(&mut slow), Received::Event(event("m4")));
    assert_eq!(bus.try_recv(&mut slow), Received::Empty);
    assert_eq!(bus.publish(event("m5")), Ok(2));
    assert_eq!(bus.try_recv(&mut slow), Received::Event(event("m5")));
    assert_eq!(bus.try_recv(&mut fast), Received::Event(event("m5")));
    bus.unsubscribe(slow);
    assert_eq!(bus.subscriber_count(), 1);
}

#[test]
fn a_closed_broadcaster_hands_out_what_is_left() {
    let mut bus = Broadcaster::new(2);
    let mut cursor = bus.subscribe().unwrap();
    bus.publish(event("last")).unwrap();
    bus.close();
    assert_eq!(bus.publish(event("late")), Err(BroadcastError::Closed));
    assert_eq!(bus.try_recv(&mut cursor), Received::Event(event("last")));
    assert_eq!(bus.try_recv(&mut cursor), Received::Closed);
    assert_eq!(bus.try_recv(&mut cursor), Received::Closed);
}

#[test]
fn defaults_stand_in_for_what_was_left_out() {
    let data = normalize_notification(input("temp high", None, Some("sensor-1")));
    assert_eq!(data.notify, "temp high");
    assert_eq!(data.title, "default title");
    assert_eq!(data.device, "sensor-1");
    let bare = normalize_notification(input("m", None, None));
    assert_eq!(bare.device, "default device");
    let full = normalize_notification(input("m", Some("T"), Some("D")));
    assert_eq!(full.title, "T");
    assert_eq!(full.device, "D");
}

fn open_session(
    codec: &TokenCodec,
    tokens: &mut TokenStore,
    bus: &mut Broadcaster,
    token: &str,
    now: i64,
) -> (ConnectionSession, Result<rutify::codec::TokenClaims, AppError>) {
    let mut session = ConnectionSession::new();
    assert_eq!(session.state(), SessionState::Connecting);
    session.begin(Some(WsQuery { token: token.to_string() }));
    assert_eq!(session.state(), SessionState::Authorizing);
    let result = session.authorize(codec, tokens, bus, now);
    (session, result)
}

#[test]
fn a_subscriber_receives_exactly_the_notification_that_was_sent() {
    let codec = TokenCodec::new(SECRET).unwrap();
    let mut tokens = TokenStore::new();
    let mut notifies = NotificationStore::new();
    let mut bus = Broadcaster::new(200);
    let (bearer, _) =
        issue_notify_token(&codec, &mut tokens, "sensor-1", Some(1), None, None, 1_000, "j")
            .unwrap();
    let (mut session, claims) = open_session(&codec, &mut tokens, &mut bus, &bearer, 1_010);
    assert_eq!(claims.unwrap().usage, "sensor-1");
    assert_eq!(session.state(), SessionState::Open);
    assert_eq!(bus.subscriber_count(), 1);
    assert_eq!(list_all_tokens(&tokens)[0].last_used_at, Some(1_010));
    assert_eq!(session.on_broadcast(&mut bus), SessionAction::Wait);

    let sent = receive_notify_logic(
        &mut notifies,
        &mut bus,
        input("temp high", None, Some("sensor-1")),
        1_020,
    );
    assert_eq!(sent, Ok(1));
    match session.on_broadcast(&mut bus) {
        SessionAction::Forward(received) => {
            assert_eq!(received.event, "notify");
            assert_eq!(received.data.notify, "temp high");
            assert_eq!(received.data.device, "sensor-1");
            assert_eq!(received.data.title, "default title");
            assert_eq!(received.timestamp, 1_020);
        }
        other => panic!("expected an event, got {:?}", other),
    }
    assert_eq!(session.on_write(&mut bus, true), SessionAction::Wait);
    assert_eq!(session.on_broadcast(&mut bus), SessionAction::Wait);
    let (listed, total) = list_notifies_handler(&notifies);
    assert_eq!(total, 1);
    assert_eq!(listed[0].notify, "temp high");
    assert_eq!(listed[0].title, "default title");
    assert_eq!(listed[0].received_at, 1_020);
}

#[test]
fn revoking_a_token_spares_the_open_connection_and_stops_new_ones() {
    let codec = TokenCodec::new(SECRET).unwrap();
    let mut tokens = TokenStore::new();
    let mut bus = Broadcaster::new(8);
    let (bearer, record) =
        issue_notify_token(&codec, &mut tokens, "sensor-1", Some(1), None, None, 1_000, "j")
            .unwrap();
    let (mut open, first) = open_session(&codec, &mut tokens, &mut bus, &bearer, 1_010);
    assert!(first.is_ok());
    assert_eq!(delete_token(&mut tokens, record.id), 200);

    bus.publish(event("still here")).unwrap();
    assert_eq!(open.state(), SessionState::Open);
    assert_eq!(open.on_broadcast(&mut bus), SessionAction::Forward(event("still here")));
    assert_eq!(open.on_transport(&mut bus, TransportEvent::Message), SessionAction::Wait);

    let (fresh, second) = open_session(&codec, &mut tokens, &mut bus, &bearer, 1_020);
    assert_eq!(second, Err(AppError::AuthError("Token not found or expired".to_string())));
    assert_eq!(second.unwrap_err().into_response(), (401, "Unauthorized".to_string()));
    assert_eq!(fresh.state(), SessionState::Closed);
    assert_eq!(bus.subscriber_count(), 1);
}

#[test]
fn a_session_ends_with_its_transport() {
    let codec = TokenCodec::new(SECRET).unwrap();
    let mut tokens = TokenStore::new();
    let mut bus = Broadcaster::new(8);
    let (bearer, _) =
        issue_notify_token(&codec, &mut tokens, "u", None, None, None, 0, "j").unwrap();
    for ending in [TransportEvent::Close, TransportEvent::Error, TransportEvent::EndOfStream] {
        let (mut session, _) = open_session(&codec, &mut tokens, &mut bus, &bearer, 1);
        assert_eq!(bus.subscriber_count(), 1);
        assert_eq!(session.on_transport(&mut bus, ending), SessionAction::Stop);
        assert_eq!(session.state(), SessionState::Closed);
        assert_eq!(bus.subscriber_count(), 0);
        bus.publish(event("unheard")).unwrap();
        assert_eq!(session.on_broadcast(&mut bus), SessionAction::Stop);
        assert_eq!(session.on_transport(&mut bus, TransportEvent::Message), SessionAction::Stop);
        assert_eq!(session.on_write(&mut bus, true), SessionAction::Stop);
        assert_eq!(session.state(), SessionState::Closed);
    }
    let (mut failing, _) = open_session(&codec, &mut tokens, &mut bus, &bearer, 1);
    assert_eq!(failing.on_write(&mut bus, false), SessionAction::Stop);
    assert_eq!(failing.state(), SessionState::Closed);
    assert_eq!(bus.subscriber_count(), 0);
}

#[test]
fn a_session_reports_lag_and_stops_with_the_broadcaster() {
    let codec = TokenCodec::new(SECRET).unwrap();
    let mut tokens = TokenStore::new();
    let mut bus = Broadcaster::new(2);
    let (bearer, _) =
        issue_notify_token(&codec, &mut tokens, "u", None, None, None, 0, "j").unwrap();
    let (mut session, _) = open_session(&codec, &mut tokens, &mut bus, &bearer, 1);
    for i in 0..5 {
        bus.publish(event(&format!("m{}", i))).unwrap();
    }
    assert_eq!(session.on_broadcast(&mut bus), SessionAction::ReportLag(3));
    assert_eq!(session.state(), SessionState::Open);
    assert_eq!(session.on_broadcast(&mut bus), SessionAction::Forward(event("m3")));
    assert_eq!(session.on_broadcast(&mut bus), SessionAction::Forward(event("m4")));
    bus.close();
    assert_eq!(session.on_broadcast(&mut bus), SessionAction::Stop);
    assert_eq!(session.state(), SessionState::Closed);
    assert_eq!(bus.subscriber_count(), 0);
}

#[test]
fn a_handshake_needs_a_token_and_the_right_moment() {
    let codec = TokenCodec::new(SECRET).unwrap();
    let mut tokens = TokenStore::new();
    let mut bus = Broadcaster::new(2);
    let mut without = ConnectionSession::new();
    without.begin(None);
    assert_eq!(without.state(), SessionState::Closed);
    let mut early = ConnectionSession::new();
    assert_eq!(
        early.authorize(&codec, &mut tokens, &mut bus, 0),
        Err(AppError::AuthError("Connection is not authorizing".to_string()))
    );
    assert_eq!(early.state(), SessionState::Connecting);
    let (forged, refused) = open_session(&codec, &mut tokens, &mut bus, "forged", 0);
    assert_eq!(refused, Err(AppError::AuthError("Invalid notify token".to_string())));
    assert_eq!(forged.state(), SessionState::Closed);
    assert_eq!(bus.subscriber_count(), 0);
}

#[test]
fn notifications_are_listed_newest_first_and_counted() {
    let mut notifies = NotificationStore::new();
    let mut bus = Broadcaster::new(2);
    let day = 86_400;
    receive_notify_logic(&mut notifies, &mut bus, input("a", None, Some("x")), 10).unwrap();
    receive_notify_logic(&mut notifies, &mut bus, input("b", None, Some("y")), day + 5).unwrap();
    receive_notify_logic(&mut notifies, &mut bus, input("c", None, Some("x")), day + 5).unwrap();
    receive_notify_logic(&mut notifies, &mut bus, input("d", None, None), day - 1).unwrap();
    receive_notify_logic(&mut notifies, &mut bus, input("e", None, None), -1).unwrap();
    let (listed, total) = list_notifies_handler(&notifies);
    assert_eq!(total, 5);
    let order: Vec<&str> = listed.iter().map(|item| item.notify.as_str()).collect();
    assert_eq!(order, vec!["b", "c", "d", "a", "e"]);
    assert_eq!(
        stats_handler(&notifies, day + 100),
        Stats { today_count: 2, total_count: 5, device_count: 3, is_running: true }
    );
    assert_eq!(stats_handler(&notifies, 0).today_count, 2);
    assert_eq!(stats_handler(&notifies, -5).today_count, 1);
    assert_eq!(stats_handler(&notifies, 3 * day).today_count, 0);
    assert_eq!(delete_notify_by_id_handler(&mut notifies, 2), 200);
    assert_eq!(delete_notify_by_id_handler(&mut notifies, 2), 404);
    assert_eq!(stats_handler(&notifies, 0).device_count, 2);
    assert_eq!(delete_all_notifies_handler(&mut notifies), 4);
    assert_eq!(delete_all_notifies_handler(&mut notifies), 0);
    assert_eq!(
        stats_handler(&notifies, 0),
        Stats { today_count: 0, total_count: 0, device_count: 0, is_running: true }
    );
}

#[test]
fn test_resolve_service_addr_default() {
    let addr = resolve_service_addr(None);
    assert!(addr.contains("127.0.0.1"));
    assert!(addr.contains("3000"));
}

#[test]
fn test_resolve_service_addr_custom() {
    let addr = resolve_service_addr(Some("0.0.0.0:8080"));
    assert_eq!(addr, "http://127.0.0.1:8080");
}

fn item(id: i32) -> rutify::model::NotifyItem {
    rutify::model::NotifyItem {
        id,
        title: format!("Test {}", id),
        notify: format!("Message {}", id),
        device: format!("Device {}", id),
        received_at: chrono::Utc::now().timestamp(),
    }
}

#[test]
fn test_notify_model_empty() {
    let items: Vec<rutify::model::NotifyItem> = vec![];
    let model = notify_model(&items);
    assert_eq!(model.len(), 0);
}

#[test]
fn test_notify_model_single_item() {
    let items = vec![item(1)];
    let model = notify_model(&items);
    assert_eq!(model.len(), 1);
}

#[test]
fn test_notify_model_multiple_items() {
    let items = vec![item(1), item(2)];
    let model = notify_model(&items);
    assert_eq!(model.len(), 2);
}

#[test]
fn test_apply_notifies_to_ui_empty() {
    let mut cache = Vec::new();
    let items: Vec<rutify::model::NotifyItem> = vec![];
    apply_notifies_to_ui(&mut cache, items);
}

#[test]
fn test_apply_notifies_to_ui_with_items() {
    let mut cache = Vec::new();
    let items = vec![item(1)];
    apply_notifies_to_ui(&mut cache, items);

    assert_eq!(cache.len(), 1);
    assert_eq!(cache[0].id, 1);
}

#[test]
fn the_window_shows_all_rows_and_the_first_five_as_recent() {
    let items: Vec<rutify::model::NotifyItem> = (1..=7)
        .map(|id| rutify::model::NotifyItem { received_at: 1_431_648_000, ..item(id) })
        .collect();
    let mut cache = Vec::new();
    let (all, recent) = apply_notifies_to_ui(&mut cache, items.clone());
    assert_eq!(cache, items);
    assert_eq!(all.len(), 7);
    assert_eq!(recent.len(), 5);
    assert_eq!(recent[4].id, 5);
    assert_eq!(all[6].title, "Test 7");
    assert_eq!(all[0].received_at, "2015-05-15 00:00:00");
    assert_eq!(recent_notifies(&items[..2].to_vec()).len(), 2);
    assert_eq!(resolve_service_addr(Some("10.0.0.1:1")), "http://10.0.0.1:1");
}

#[test]
fn a_notification_store_is_taken_back_from_its_records() {
    let stored = |id: i32, at: i64| rutify::db::notifies::Model {
        id,
        notify: "n".to_string(),
        title: None,
        device: None,
        received_at: at,
    };
    let mut notifies = NotificationStore::restore(vec![stored(4, 10), stored(2, 20)]).unwrap();
    let (listed, total) = list_notifies_handler(&notifies);
    assert_eq!(total, 2);
    assert_eq!(listed[0].id, 2);
    assert_eq!(listed[0].title, "default title");
    assert_eq!(listed[0].device, "default device");
    let mut bus = Broadcaster::new(1);
    receive_notify_logic(&mut notifies, &mut bus, input("m", None, None), 30).unwrap();
    assert_eq!(notifies.list()[0].id, 5);
    assert!(NotificationStore::restore(vec![stored(0, 1)]).is_none());
    let mut full = NotificationStore::restore(vec![stored(i32::MAX - 1, 1)]).unwrap();
    let mut listening = Broadcaster::new(1);
    let mut cursor = listening.subscribe().unwrap();
    assert_eq!(
        receive_notify_logic(&mut full, &mut listening, input("m", None, None), 30),
        Err(AppError::DatabaseError("Failed to store notification".to_string()))
    );
    assert_eq!(listening.try_recv(&mut cursor), Received::Empty);
    assert_eq!(full.len(), 1);
}

#[test]
fn a_notification_is_stored_first_and_published_as_stored() {
    let mut notifies = NotificationStore::new();
    let mut bus = Broadcaster::new(4);
    let mut cursor = bus.subscribe().unwrap();
    let (record, published) =
        store_notification(&mut notifies, input("temp high", None, Some("sensor-1")), 77).unwrap();
    assert_eq!(record.id, 1);
    assert_eq!(record.notify, "temp high");
    assert_eq!(record.title.as_deref(), Some("default title"));
    assert_eq!(record.device.as_deref(), Some("sensor-1"));
    assert_eq!(record.received_at, 77);
    assert_eq!(notifies.list(), vec![record]);
    assert_eq!(published.event, "notify");
    assert_eq!(published.data, normalize_notification(input("temp high", None, Some("sensor-1"))));
    assert_eq!(published.timestamp, 77);
    assert_eq!(bus.try_recv(&mut cursor), Received::Empty);
    assert_eq!(publish_notification(&mut bus, published.clone()), 1);
    assert_eq!(bus.try_recv(&mut cursor), Received::Event(published));
    assert_eq!(bus.try_recv(&mut cursor), Received::Empty);
}

#[test]
fn publishing_to_nobody_or_to_a_closed_bus_is_no_failure() {
    let mut bus = Broadcaster::new(2);
    assert_eq!(publish_notification(&mut bus, event("a")), 0);
    assert_eq!(bus.retained_count(), 0);
    let mut first = bus.subscribe().unwrap();
    let mut second = bus.subscribe().unwrap();
    assert_eq!(publish_notification(&mut bus, event("b")), 2);
    assert_eq!(bus.try_recv(&mut first), Received::Event(event("b")));
    assert_eq!(bus.try_recv(&mut second), Received::Event(event("b")));
    bus.close();
    assert_eq!(publish_notification(&mut bus, event("c")), 0);
    assert_eq!(bus.try_recv(&mut first), Received::Closed);
}

#[test]
fn every_notification_is_kept_once_while_nobody_listens() {
    let mut notifies = NotificationStore::new();
    let mut bus = Broadcaster::new(2);
    for i in 0..5 {
        let taken =
            receive_notify_logic(&mut notifies, &mut bus, input(&format!("m{}", i), None, None), i);
        assert_eq!(taken, Ok(0));
    }
    let kept = notifies.list();
    assert_eq!(kept.len(), 5);
    for (i, record) in kept.iter().rev().enumerate() {
        assert_eq!(record.id, i as i32 + 1);
        assert_eq!(record.notify, format!("m{}", i));
    }
    assert_eq!(bus.retained_count(), 0);
    let codec = TokenCodec::new(SECRET).unwrap();
    let mut tokens = TokenStore::new();
    let (bearer, _) =
        issue_notify_token(&codec, &mut tokens, "u", None, None, None, 0, "j").unwrap();
    let (mut late, _) = open_session(&codec, &mut tokens, &mut bus, &bearer, 6);
    assert_eq!(late.on_broadcast(&mut bus), SessionAction::Wait);
    assert_eq!(receive_notify_logic(&mut notifies, &mut bus, input("e", None, None), 9), Ok(1));
    match late.on_broadcast(&mut bus) {
        SessionAction::Forward(first) => assert_eq!(first.data.notify, "e"),
        other => panic!("expected the event, got {:?}", other),
    }
    assert_eq!(late.on_broadcast(&mut bus), SessionAction::Wait);
    assert_eq!(late.state(), SessionState::Open);
    assert_eq!(notifies.len(), 6);
}

#[test]
fn a_session_that_lagged_forwards_what_follows_in_order() {
    let codec = TokenCodec::new(SECRET).unwrap();
    let mut tokens = TokenStore::new();
    let mut bus = Broadcaster::new(3);
    let (bearer, _) =
        issue_notify_token(&codec, &mut tokens, "u", None, None, None, 0, "j").unwrap();
    let (mut slow, _) = open_session(&codec, &mut tokens, &mut bus, &bearer, 1);
    let (mut quick, _) = open_session(&codec, &mut tokens, &mut bus, &bearer, 1);
    for i in 0..7 {
        assert_eq!(bus.publish(event(&format!("m{}", i))), Ok(2));
        assert_eq!(quick.on_broadcast(&mut bus), SessionAction::Forward(event(&format!("m{}", i))));
    }
    assert_eq!(slow.on_broadcast(&mut bus), SessionAction::ReportLag(4));
    assert_eq!(slow.state(), SessionState::Open);
    for i in 4..7 {
        assert_eq!(slow.on_broadcast(&mut bus), SessionAction::Forward(event(&format!("m{}", i))));
    }
    assert_eq!(slow.on_broadcast(&mut bus), SessionAction::Wait);
    for name in ["e1", "e2", "e3"] {
        assert_eq!(bus.publish(event(name)), Ok(2));
    }
    for name in ["e1", "e2", "e3"] {
        assert_eq!(slow.on_broadcast(&mut bus), SessionAction::Forward(event(name)));
        assert_eq!(quick.on_broadcast(&mut bus), SessionAction::Forward(event(name)));
    }
    assert_eq!(slow.on_broadcast(&mut bus), SessionAction::Wait);
    assert_eq!(quick.on_broadcast(&mut bus), SessionAction::Wait);
}

#[test]
fn ids_are_not_handed_out_again_after_a_deletion() {
    let mut notifies = NotificationStore::new();
    let mut bus = Broadcaster::new(2);
    receive_notify_logic(&mut notifies, &mut bus, input("a", None, None), 1).unwrap();
    receive_notify_logic(&mut notifies, &mut bus, input("b", None, None), 2).unwrap();
    assert_eq!(delete_notify_by_id_handler(&mut notifies, 2), 200);
    receive_notify_logic(&mut notifies, &mut bus, input("c", None, None), 3).unwrap();
    assert_eq!(delete_all_notifies_handler(&mut notifies), 2);
    receive_notify_logic(&mut notifies, &mut bus, input("d", None, None), 4).unwrap();
    let kept = notifies.list();
    assert_eq!(kept.len(), 1);
    assert_eq!(kept[0].id, 4);
    let codec = TokenCodec::new(SECRET).unwrap();
    let mut tokens = TokenStore::new();
    let (_, first) =
        issue_notify_token(&codec, &mut tokens, "a", Some(1), None, None, 10, "j1").unwrap();
    assert_eq!(tokens.peek_next_key(), 2);
    assert_eq!(delete_token(&mut tokens, first.id), 200);
    assert_eq!(tokens.peek_next_key(), 2);
    assert_eq!(delete_token(&mut tokens, first.id), 404);
    assert_eq!(tokens.peek_next_key(), 2);
    let (_, second) =
        issue_notify_token(&codec, &mut tokens, "a", Some(1), None, None, 10, "j2").unwrap();
    assert_eq!(second.id, 2);
}

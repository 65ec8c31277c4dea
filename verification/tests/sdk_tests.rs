use rutify::client::{
    format_notification, format_stats, health_check, ClientState, WebSocketNotification,
};
use rutify::model::{
    ApiResponse, NotificationData, NotifyEvent, NotifyItem, RutifyError, Stats, WebSocketMessage,
};
use rutify::sdk::auth::notify_token_request;
use rutify::sdk::client::{judge_frame, unwrap_response, Frame, Method, RutifyClient};
use rutify::sdk::error::{SdkError, SdkResult};
use rutify::sdk::types::{
    judge_frame_for_callback, send_websocket_message, timeless, NotificationMessage,
    NotifyItemData,
};
use std::time::Duration;

#[test]
fn test_client_creation() {
    let client = RutifyClient::new("http://localhost:3000");
    assert_eq!(client.base_url, "http://localhost:3000");
}

#[test]
fn test_client_with_timeout() {
    let client = RutifyClient::new("http://localhost:3000").with_timeout(Duration::from_secs(60));
    assert_eq!(client.timeout, Duration::from_secs(60));
}

#[test]
fn client_test_sdk_error_display() {
    let error = SdkError::NetworkError("Test errors".to_string());
    assert_eq!(error.to_string(), "Network errors: Test errors");
}

#[test]
fn test_sdk_result_type() {
    fn returns_success() -> SdkResult<String> {
        Ok("success".to_string())
    }

    fn returns_error() -> SdkResult<String> {
        Err(SdkError::NetworkError("test".to_string()))
    }

    assert!(returns_success().is_ok());
    assert!(returns_error().is_err());
}

#[test]
fn test_client_url_trimming() {
    let client = RutifyClient::new("http://localhost:3000/");
    assert_eq!(client.base_url, "http://localhost:3000");

    let client = RutifyClient::new("http://localhost:3000//");
    assert_eq!(client.base_url, "http://localhost:3000");

    let client = RutifyClient::new("http://localhost:3000///");
    assert_eq!(client.base_url, "http://localhost:3000");
}

#[test]
fn test_timeout_configuration() {
    let client =
        RutifyClient::new("http://localhost:3000").with_timeout(Duration::from_millis(500));

    assert_eq!(client.timeout, Duration::from_millis(500));
}

#[test]
fn test_sdk_error_creation() {
    let error = SdkError::NetworkError("test errors".to_string());
    assert!(matches!(error, SdkError::NetworkError(_)));
}

#[test]
fn error_test_sdk_error_display() {
    let error = SdkError::NetworkError("test errors".to_string());
    assert_eq!(error.to_string(), "Network errors: test errors");
}

#[test]
fn test_sdk_error_to_rutify_error() {
    let sdk_error = SdkError::NetworkError("network issue".to_string());
    let rutify_error: RutifyError = sdk_error.into();

    match rutify_error {
        RutifyError::Network { message } => assert_eq!(message, "network issue"),
        _ => panic!("Expected Network errors"),
    }
}

#[test]
fn test_sdk_error_api_to_rutify_error() {
    let sdk_error = SdkError::ApiError {
        status: "500".to_string(),
    };
    let rutify_error: RutifyError = sdk_error.into();

    match rutify_error {
        RutifyError::Api { status, message } => {
            assert_eq!(status, "500");
            assert_eq!(message, "API errors");
        }
        _ => panic!("Expected API errors"),
    }
}

#[test]
fn test_sdk_error_json_to_rutify_error() {
    let json_result: Result<serde_json::Value, serde_json::Error> =
        serde_json::from_str("invalid json");
    let sdk_error = SdkError::JsonError(json_result.unwrap_err().to_string());
    let rutify_error: RutifyError = sdk_error.into();

    match rutify_error {
        RutifyError::Parse { message } => {
            assert!(!message.is_empty());
        }
        _ => panic!("Expected Parse errors"),
    }
}

#[test]
fn test_sdk_error_url_to_rutify_error() {
    let sdk_error = SdkError::InvalidUrl(url::ParseError::EmptyHost.to_string());
    let rutify_error: RutifyError = sdk_error.into();

    match rutify_error {
        RutifyError::Config { message } => {
            assert!(!message.is_empty());
        }
        _ => panic!("Expected Config errors"),
    }
}

#[test]
fn every_failure_has_its_line() {
    let text = |value: &str| value.to_string();
    assert_eq!(SdkError::HttpError(text("h")).to_string(), "HTTP request failed: h");
    assert_eq!(
        SdkError::JsonError(text("j")).to_string(),
        "JSON serialization/deserialization failed: j"
    );
    assert_eq!(
        SdkError::ApiError { status: text("fail") }.to_string(),
        "API returned errors status: fail"
    );
    assert_eq!(SdkError::InvalidUrl(text("u")).to_string(), "Invalid URL: u");
    let http: RutifyError = SdkError::HttpError(text("h")).into();
    assert_eq!(http, RutifyError::Network { message: text("h") });
}

#[test]
fn requests_go_where_they_belong() {
    let client = RutifyClient::new("http://localhost:3000/").with_token("tok");
    assert_eq!(client.timeout, Duration::from_secs(30));
    let api = client.api_request("/notifies");
    assert_eq!(api.method, Method::Get);
    assert_eq!(api.url, "http://localhost:3000/api/notifies");
    assert_eq!(api.authorization, Some("Bearer tok".to_string()));
    assert_eq!(client.api_request("stats").url, "http://localhost:3000/api/stats");
    let notify = client.notify_request();
    assert_eq!(notify.method, Method::Post);
    assert_eq!(notify.url, "http://localhost:3000/notify");
    assert_eq!(client.websocket_url(), "ws://localhost:3000/ws?token=tok");
    let secure = RutifyClient::new("https://http.example/");
    assert_eq!(secure.websocket_url(), "wss://ws.example/ws");
    assert_eq!(secure.api_request("x").authorization, None);
}

#[test]
fn user_requests_carry_the_user_token() {
    let mut client = RutifyClient::new("http://h");
    assert!(!client.has_user_token());
    assert_eq!(client.open_request("login").url, "http://h/auth/login");
    assert_eq!(client.open_request("login").authorization, None);
    client.set_user_token("jwt");
    assert!(client.has_user_token());
    let list = client.user_request(Method::Get, "tokens");
    assert_eq!(list.url, "http://h/auth/tokens");
    assert_eq!(list.authorization, Some("Bearer jwt".to_string()));
    let delete = client.delete_token_request(-7);
    assert_eq!(delete.method, Method::Delete);
    assert_eq!(delete.url, "http://h/auth/tokens/-7");
    client.clear_user_token();
    assert!(!client.has_user_token());
    client.set_token("a");
    assert_eq!(client.token, Some("a".to_string()));
    client.clear_token();
    assert_eq!(client.token, None);
    let with_user = client.with_user_token("u");
    assert_eq!(with_user.user_token, Some("u".to_string()));
    let request = notify_token_request("sensor", Some("phone".to_string()));
    assert_eq!(request.usage, "sensor");
    assert_eq!(request.expires_in_hours, Some(24));
    assert_eq!(request.device_info, Some("phone".to_string()));
}

#[test]
fn an_answer_counts_only_with_the_status_ok() {
    assert_eq!(unwrap_response(ApiResponse { status: "ok".to_string(), data: 7 }), Ok(7));
    assert_eq!(
        unwrap_response(ApiResponse { status: "error".to_string(), data: 7 }),
        Err(SdkError::ApiError { status: "error".to_string() })
    );
}

fn event(message: &str) -> NotifyEvent {
    NotifyEvent {
        event: "notify".to_string(),
        data: NotificationData {
            notify: message.to_string(),
            title: "t".to_string(),
            device: "d".to_string(),
        },
        timestamp: 5,
    }
}

#[test]
fn frames_are_judged_by_their_kind() {
    let held = judge_frame(Frame::Text { text: "{}".to_string(), event: Some(event("m")) });
    assert_eq!(held.message, Some(WebSocketMessage::Event(event("m"))));
    assert!(!held.pong && !held.stop);
    let plain = judge_frame(Frame::Text { text: "hi".to_string(), event: None });
    assert_eq!(plain.message, Some(WebSocketMessage::Text("hi".to_string())));
    let bytes = judge_frame(Frame::Binary { text: Some("hi".to_string()), event: None });
    assert_eq!(bytes.message, Some(WebSocketMessage::Text("hi".to_string())));
    let garbage = judge_frame(Frame::Binary { text: None, event: None });
    assert_eq!(garbage.message, None);
    let close = judge_frame(Frame::Close);
    assert_eq!(close.message, Some(WebSocketMessage::Close));
    assert!(close.stop);
    let ping = judge_frame(Frame::Ping);
    assert!(ping.pong && !ping.stop && ping.message.is_none());
    let pong = judge_frame(Frame::Pong);
    assert!(!pong.pong && !pong.stop && pong.message.is_none());
    let failed = judge_frame(Frame::Failed("reset".to_string()));
    assert_eq!(failed.message, Some(WebSocketMessage::Error { message: "reset".to_string() }));
    assert!(failed.stop);
}

#[test]
fn a_client_keeps_the_newest_hundred_notifications() {
    let mut state = ClientState::new("http://h/");
    assert_eq!(state.client.base_url, "http://h");
    assert!(!state.has_token());
    for i in 0..101 {
        let (told, stop) = state.on_message(WebSocketMessage::Event(event(&format!("m{}", i))));
        assert!(matches!(told, Some(WebSocketNotification::Event(_))));
        assert!(!stop);
    }
    assert_eq!(state.notifications.len(), 100);
    assert_eq!(state.notifications[0].notify, "m1");
    assert_eq!(state.notifications[99].notify, "m100");
    assert_eq!(state.notifications[99].id, 0);
    assert_eq!(
        state.on_message(WebSocketMessage::Text("x".to_string())),
        (Some(WebSocketNotification::Text("x".to_string())), false)
    );
    assert_eq!(
        state.on_message(WebSocketMessage::Error { message: "e".to_string() }),
        (Some(WebSocketNotification::Error { message: "e".to_string() }), false)
    );
    assert_eq!(state.on_message(WebSocketMessage::Ping), (None, false));
    assert_eq!(
        state.on_message(WebSocketMessage::Close),
        (Some(WebSocketNotification::Close), true)
    );
    assert_eq!(state.notifications.len(), 100);
}

#[test]
fn a_client_remembers_what_the_server_listed() {
    let mut state = ClientState::with_token("http://h", "tok");
    assert!(state.has_token());
    state.clear_token();
    assert!(!state.has_token());
    state.set_token("again");
    assert_eq!(state.client.token, Some("again".to_string()));
    let item = |id: i32| NotifyItem {
        id,
        title: "t".to_string(),
        notify: "n".to_string(),
        device: "d".to_string(),
        received_at: 0,
    };
    state.store_notifies(&vec![item(1), item(2)]);
    state.store_notifies(&vec![item(3)]);
    assert_eq!(state.notifications.len(), 1);
    assert_eq!(state.notifications[0].id, 3);
    let stats = Stats { today_count: 1, total_count: 2, device_count: 3, is_running: true };
    state.store_stats(stats);
    assert_eq!(state.stats, Some(stats));
    assert!(health_check::<String>(&Ok(stats)));
    assert!(!health_check(&Err("down")));
}

#[test]
fn notifications_and_statistics_are_written_out() {
    let item = NotifyItem {
        id: 1,
        title: "Title".to_string(),
        notify: "Body".to_string(),
        device: "phone".to_string(),
        received_at: 1_431_648_000,
    };
    assert_eq!(format_notification(&item), "Title - Body (phone)\nReceived: 2015-05-15 00:00:00");
    let stats = Stats { today_count: 5, total_count: 128, device_count: 3, is_running: true };
    assert_eq!(
        format_stats(&stats),
        "Today's notifications: 5\nTotal notifications: 128\nActive devices: 3\nServer running: ✅ Yes"
    );
    let stopped = Stats { today_count: -1, total_count: 0, device_count: 10, is_running: false };
    assert_eq!(
        format_stats(&stopped),
        "Today's notifications: -1\nTotal notifications: 0\nActive devices: 10\nServer running: ❌ No"
    );
}

#[test]
fn the_first_client_hands_on_text_and_never_an_event_from_bytes() {
    let plain = timeless(event("m"));
    assert_eq!(plain.event, "notify");
    assert_eq!(plain.data.notify, "m");
    assert_eq!(
        judge_frame_for_callback(Frame::Text { text: "{}".to_string(), event: Some(event("m")) }),
        (Some(NotificationMessage::Event(plain)), false)
    );
    assert_eq!(
        judge_frame_for_callback(Frame::Text { text: "hi".to_string(), event: None }),
        (Some(NotificationMessage::Text("hi".to_string())), false)
    );
    assert_eq!(
        judge_frame_for_callback(Frame::Binary {
            text: Some("{}".to_string()),
            event: Some(event("m")),
        }),
        (Some(NotificationMessage::Text("{}".to_string())), false)
    );
    assert_eq!(judge_frame_for_callback(Frame::Binary { text: None, event: None }), (None, false));
    assert_eq!(judge_frame_for_callback(Frame::Ping), (None, false));
    assert_eq!(judge_frame_for_callback(Frame::Pong), (None, false));
    assert_eq!(judge_frame_for_callback(Frame::Close), (Some(NotificationMessage::Close), true));
    assert_eq!(
        judge_frame_for_callback(Frame::Failed("reset".to_string())),
        (Some(NotificationMessage::Error("reset".to_string())), true)
    );
    assert_eq!(send_websocket_message(true), Ok(()));
    assert_eq!(
        send_websocket_message(false),
        Err(SdkError::NetworkError("WebSocket not connected".to_string()))
    );
    let item = NotifyItemData {
        id: 1,
        title: "t".to_string(),
        notify: "n".to_string(),
        device: "d".to_string(),
        received_at: "2015-05-15 00:00:00".to_string(),
    };
    assert_eq!(item.clone(), item);
}

use rutify::model::{
    AppConfig, DeviceInfo, NotificationInput, NotifyItem, RutifyError, Stats, TokenItem,
    WebSocketMessage,
};

fn now() -> i64 {
    chrono::Utc::now().timestamp()
}

#[test]
fn test_notify_item_creation() {
    let item = NotifyItem {
        id: 1,
        title: "Test Title".to_string(),
        notify: "Test Message".to_string(),
        device: "Test Device".to_string(),
        received_at: now(),
    };

    assert_eq!(item.id, 1);
    assert_eq!(item.title, "Test Title");
    assert_eq!(item.notify, "Test Message");
    assert_eq!(item.device, "Test Device");
}

#[test]
fn test_stats_creation() {
    let stats = Stats {
        today_count: 10,
        total_count: 100,
        device_count: 5,
        is_running: true,
    };

    assert_eq!(stats.today_count, 10);
    assert_eq!(stats.total_count, 100);
    assert_eq!(stats.device_count, 5);
    assert!(stats.is_running);
}

#[test]
fn test_notification_input() {
    let input = NotificationInput {
        notify: "Test notification".to_string(),
        title: Some("Test Title".to_string()),
        device: Some("Test Device".to_string()),
    };

    assert_eq!(input.notify, "Test notification");
    assert_eq!(input.title, Some("Test Title".to_string()));
    assert_eq!(input.device, Some("Test Device".to_string()));
}

#[test]
fn test_websocket_message_text() {
    let msg = WebSocketMessage::Text("Hello World".to_string());
    match msg {
        WebSocketMessage::Text(text) => assert_eq!(text, "Hello World"),
        _ => panic!("Expected Text message"),
    }
}

#[test]
fn test_rutify_error_display() {
    let error = RutifyError::Network {
        message: "Network error".to_string(),
    };
    assert_eq!(error.to_string(), "Network error: Network error");
}

#[test]
fn test_token_item_creation() {
    let token = TokenItem {
        id: 1,
        token_hash: "abc123".to_string(),
        usage: "api".to_string(),
        created_at: now(),
    };

    assert_eq!(token.id, 1);
    assert_eq!(token.token_hash, "abc123");
    assert_eq!(token.usage, "api");
}

#[test]
fn test_device_info_creation() {
    let device = DeviceInfo {
        id: Some(123),
        name: "Test Device".to_string(),
        last_seen: Some(now()),
        is_active: true,
    };

    assert_eq!(device.id, Some(123));
    assert_eq!(device.name, "Test Device");
    assert!(device.is_active);
}

#[test]
fn every_error_has_its_line() {
    let text = |message: &str| message.to_string();
    assert_eq!(
        RutifyError::Api { status: text("500"), message: text("boom") }.to_string(),
        "API error [500]: boom"
    );
    assert_eq!(RutifyError::Parse { message: text("p") }.to_string(), "Parse error: p");
    assert_eq!(RutifyError::Auth { message: text("a") }.to_string(), "Auth error: a");
    assert_eq!(RutifyError::Config { message: text("c") }.to_string(), "Config error: c");
    assert_eq!(RutifyError::Unknown { message: text("u") }.to_string(), "Unknown error: u");
}

#[test]
fn default_config_addresses_the_local_server() {
    let config = AppConfig::default();
    assert_eq!(config.server_url, "http://127.0.0.1:3000");
    assert_eq!(config.timeout_seconds, 30);
    assert_eq!(config.retry_attempts, 3);
}

use rutify::application::{update_ui_notifications, update_ui_stats, AppState};
use rutify::args::CliError;
use rutify::model::{DeviceInfo, NotificationData, NotifyEvent, NotifyItem, Stats, TokenItem};
use rutify::panel::{update_notifications_ui, update_stats_ui, Cli, ManagementState};
use rutify::sdk::client::RutifyClient;

fn now() -> i64 {
    chrono::Utc::now().timestamp()
}

#[test]
fn tests_test_cli_parsing() {
    let args = vec!["rutify-panel", "--server", "http://localhost:8080"];
    let cli = Cli::try_parse_from(args).unwrap();

    assert_eq!(cli.server, "http://localhost:8080");
}

#[test]
fn tests_test_cli_default_server() {
    let args = vec!["rutify-panel"];
    let cli = Cli::try_parse_from(args).unwrap();

    assert_eq!(cli.server, "http://localhost:8080");
}

#[test]
fn test_management_state_creation() {
    let state = ManagementState::new("http://localhost:3000");

    assert_eq!(state.client.base_url, "http://localhost:3000");
    assert_eq!(state.notifications.len(), 0);
    assert!(state.stats.is_none());
    assert_eq!(state.tokens.len(), 0);
    assert_eq!(state.devices.len(), 0);
}

#[test]
fn test_management_state_with_different_server() {
    let state = ManagementState::new("http://example.com:8080");
    assert_eq!(state.client.base_url, "http://example.com:8080");
}

#[test]
fn test_management_state_notifications_capacity() {
    let state = ManagementState::new("http://localhost:3000");
    assert_eq!(state.notifications.capacity(), 0);
    assert_eq!(state.tokens.capacity(), 0);
    assert_eq!(state.devices.capacity(), 0);
}

#[test]
fn test_management_state_add_notification() {
    let mut state = ManagementState::new("http://localhost:3000");

    let item = NotifyItem {
        id: 1,
        title: "Test".to_string(),
        notify: "Message".to_string(),
        device: "Device".to_string(),
        received_at: now(),
    };

    state.notifications.push(item);
    assert_eq!(state.notifications.len(), 1);
    assert_eq!(state.notifications[0].id, 1);
}

#[test]
fn test_management_state_add_token() {
    let mut state = ManagementState::new("http://localhost:3000");

    let token = TokenItem {
        id: 1,
        token_hash: "abc123".to_string(),
        usage: "api".to_string(),
        created_at: now(),
    };

    state.tokens.push(token);
    assert_eq!(state.tokens.len(), 1);
    assert_eq!(state.tokens[0].id, 1);
}

#[test]
fn test_management_state_add_device() {
    let mut state = ManagementState::new("http://localhost:3000");

    let device = DeviceInfo {
        id: Some(123),
        name: "Test Device".to_string(),
        last_seen: Some(now()),
        is_active: true,
    };

    state.devices.push(device);
    assert_eq!(state.devices.len(), 1);
    assert_eq!(state.devices[0].id, Some(123));
}

#[test]
fn test_management_state_client_methods() {
    let state = ManagementState::new("http://localhost:3000");

    assert_eq!(state.client.base_url, "http://localhost:3000");

    let client_with_timeout = state.client.with_timeout(std::time::Duration::from_secs(60));
    assert_eq!(client_with_timeout.timeout, std::time::Duration::from_secs(60));
}

#[test]
fn test_management_state_arc_clone() {
    let state = ManagementState::new("http://localhost:3000");

    let cloned_state = ManagementState {
        client: state.client.clone(),
        notifications: state.notifications.clone(),
        stats: state.stats,
        tokens: state.tokens.clone(),
        devices: state.devices.clone(),
    };

    assert_eq!(cloned_state.client.base_url, state.client.base_url);
    assert_eq!(cloned_state.notifications.len(), 0);
    assert!(cloned_state.stats.is_none());
}

#[test]
fn the_panel_takes_a_server_and_nothing_else() {
    let parse = |args: Vec<&str>| Cli::try_parse_from(args);
    assert_eq!(parse(vec!["rutify-panel", "-s", "http://h"]).unwrap().server, "http://h");
    assert_eq!(parse(vec!["rutify-panel", "--server=http://h"]).unwrap().server, "http://h");
    assert_eq!(
        parse(vec!["rutify-panel", "extra"]),
        Err(CliError::UnexpectedValue("extra".to_string()))
    );
    assert_eq!(
        parse(vec!["rutify-panel", "--server"]),
        Err(CliError::MissingValue("server".to_string()))
    );
    assert_eq!(
        parse(vec!["rutify-panel", "--verbose"]),
        Err(CliError::UnknownArgument("--verbose".to_string()))
    );
    assert_eq!(parse(vec!["rutify-panel", "-h"]), Err(CliError::HelpRequested));
}

#[test]
fn an_arriving_event_goes_to_the_head_of_the_list() {
    let mut state = ManagementState::new("http://localhost:3000");
    let event = |message: &str| NotifyEvent {
        event: "notify".to_string(),
        data: NotificationData {
            notify: message.to_string(),
            title: "t".to_string(),
            device: "d".to_string(),
        },
        timestamp: 17,
    };
    state.push_event(&event("first"));
    state.push_event(&event("second"));
    assert_eq!(state.notifications.len(), 2);
    assert_eq!(state.notifications[0].notify, "second");
    assert_eq!(state.notifications[0].id, 0);
    assert_eq!(state.notifications[0].received_at, 17);
    assert_eq!(state.notifications[1].notify, "first");
}

#[test]
fn status_lines_count_the_notifications() {
    let state = ManagementState::new("http://localhost:3000");
    assert_eq!(update_notifications_ui(&state.notifications), "Loaded 0 notifications");
    let app = AppState::new("http://localhost:3000");
    assert_eq!(update_ui_notifications(app.notifications()), "Loaded 0 notifications");
    assert!(app.stats().is_none());
}

#[test]
fn statistics_are_shown_with_a_word_for_the_server() {
    let stats = Stats { today_count: 1, total_count: 2, device_count: 3, is_running: true };
    let panel = update_stats_ui(&Some(stats)).unwrap();
    assert_eq!(panel.today_count, 1);
    assert_eq!(panel.total_count, 2);
    assert_eq!(panel.device_count, 3);
    assert_eq!(panel.server_status, "Running");
    assert_eq!(panel.uptime, "Unknown");
    let stopped = Stats { is_running: false, ..stats };
    assert_eq!(update_ui_stats(&Some(stopped)).unwrap().server_status, "Stopped");
    assert!(update_stats_ui(&None).is_none());
    assert!(update_ui_stats(&None).is_none());
    let _ = RutifyClient::new("x");
}

#[test]
fn test_management_state_concurrent_access() {
    let state = ManagementState::new("http://localhost:3000");

    let notifications = &state.notifications;
    let stats = &state.stats;
    let tokens = &state.tokens;
    let devices = &state.devices;

    let _notifications = notifications.len();
    let _stats = stats.is_none();
    let _tokens = tokens.len();
    let _devices = devices.len();
}

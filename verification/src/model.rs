//! The data that clients and server exchange.

use crate::text::{join2, optional_text};
use vstd::prelude::*;

verus! {

/// A stored notification as it is listed.
#[derive(Debug, Clone, PartialEq, Eq)]
pub struct NotifyItem {
    pub id: i32,
    pub title: String,
    pub notify: String,
    pub device: String,
    /// Seconds since the epoch.
    pub received_at: i64,
}

/// `NotifyItem` over sequences of characters.
pub struct NotifyItemView {
    pub id: i32,
    pub title: Seq<char>,
    pub notify: Seq<char>,
    pub device: Seq<char>,
    pub received_at: i64,
}

impl View for NotifyItem {
    type V = NotifyItemView;

    open spec fn view(&self) -> NotifyItemView {
        NotifyItemView {
            id: self.id,
            title: self.title@,
            notify: self.notify@,
            device: self.device@,
            received_at: self.received_at,
        }
    }
}

impl NotifyItem {
    /// A copy of the item.
    pub fn duplicate(&self) -> (copy: NotifyItem)
        ensures
            copy@ == self@,
    {
        NotifyItem {
            id: self.id,
            title: self.title.clone(),
            notify: self.notify.clone(),
            device: self.device.clone(),
            received_at: self.received_at,
        }
    }
}

/// Counts over the stored notifications.
#[derive(Debug, Clone, Copy, PartialEq, Eq, Structural)]
pub struct Stats {
    pub today_count: i32,
    pub total_count: i32,
    pub device_count: i32,
    pub is_running: bool,
}

/// A notification as a producer sends it.
#[derive(Debug, Clone, PartialEq, Eq)]
pub struct NotificationInput {
    pub notify: String,
    pub title: Option<String>,
    pub device: Option<String>,
}

/// `NotificationInput` over sequences of characters.
pub struct NotificationInputView {
    pub notify: Seq<char>,
    pub title: Option<Seq<char>>,
    pub device: Option<Seq<char>>,
}

impl View for NotificationInput {
    type V = NotificationInputView;

    open spec fn view(&self) -> NotificationInputView {
        NotificationInputView {
            notify: self.notify@,
            title: optional_text(self.title),
            device: optional_text(self.device),
        }
    }
}

/// The envelope of an API answer.
#[derive(Debug, Clone, PartialEq, Eq)]
pub struct ApiResponse<T> {
    pub status: String,
    pub data: T,
}

/// A notification with every field filled in.
#[derive(Debug, Clone, PartialEq, Eq)]
pub struct NotificationData {
    pub notify: String,
    pub title: String,
    pub device: String,
}

/// `NotificationData` over sequences of characters.
pub struct NotificationDataView {
    pub notify: Seq<char>,
    pub title: Seq<char>,
    pub device: Seq<char>,
}

impl View for NotificationData {
    type V = NotificationDataView;

    open spec fn view(&self) -> NotificationDataView {
        NotificationDataView { notify: self.notify@, title: self.title@, device: self.device@ }
    }
}

impl NotificationData {
    /// A copy of the data.
    pub fn duplicate(&self) -> (copy: NotificationData)
        ensures
            copy@ == self@,
    {
        NotificationData {
            notify: self.notify.clone(),
            title: self.title.clone(),
            device: self.device.clone(),
        }
    }
}

/// What subscribers are sent for one notification.
#[derive(Debug, Clone, PartialEq, Eq)]
pub struct NotifyEvent {
    pub event: String,
    pub data: NotificationData,
    /// Seconds since the epoch, set by the server when it took the notification in.
    pub timestamp: i64,
}

/// `NotifyEvent` over sequences of characters.
pub struct NotifyEventView {
    pub event: Seq<char>,
    pub data: NotificationDataView,
    pub timestamp: i64,
}

impl View for NotifyEvent {
    type V = NotifyEventView;

    open spec fn view(&self) -> NotifyEventView {
        NotifyEventView { event: self.event@, data: self.data@, timestamp: self.timestamp }
    }
}

impl NotifyEvent {
    /// A copy of the event.
    pub fn duplicate(&self) -> (copy: NotifyEvent)
        ensures
            copy@ == self@,
    {
        NotifyEvent {
            event: self.event.clone(),
            data: self.data.duplicate(),
            timestamp: self.timestamp,
        }
    }
}

/// What a client is handed for each frame of its connection.
#[derive(Debug, Clone, PartialEq, Eq)]
pub enum WebSocketMessage {
    /// A notification event.
    Event(NotifyEvent),
    /// Text that is no event.
    Text(String),
    /// The connection was closed.
    Close,
    /// The connection failed.
    Error { message: String },
    Ping,
    Pong,
}

/// A stored token as the management panel lists it.
#[derive(Debug, Clone, PartialEq, Eq)]
pub struct TokenItem {
    pub id: i32,
    pub token_hash: String,
    pub usage: String,
    pub created_at: i64,
}

/// A request for a token with a fixed time of expiry.
#[derive(Debug, Clone, PartialEq, Eq)]
pub struct CreateTokenRequest {
    pub usage: String,
    pub expires_at: Option<i64>,
}

/// A token with the record that was made for it.
#[derive(Debug, Clone, PartialEq, Eq)]
pub struct CreateTokenResponse {
    pub token: String,
    pub token_item: TokenItem,
}

/// A device that has sent notifications.
#[derive(Debug, Clone, PartialEq, Eq)]
pub struct DeviceInfo {
    pub id: Option<i32>,
    pub name: String,
    pub last_seen: Option<i64>,
    pub is_active: bool,
}

/// How a client reaches the server.
#[derive(Debug, Clone, PartialEq, Eq)]
pub struct AppConfig {
    pub server_url: String,
    pub timeout_seconds: u64,
    pub retry_attempts: u32,
}

impl Default for AppConfig {
    fn default() -> (config: AppConfig)
        ensures
            config.server_url@ == "http://127.0.0.1:3000"@,
            config.timeout_seconds == 30,
            config.retry_attempts == 3,
    {
        AppConfig {
            server_url: String::from_str("http://127.0.0.1:3000"),
            timeout_seconds: 30,
            retry_attempts: 3,
        }
    }
}

/// What can go wrong for a client.
#[derive(Debug, Clone, PartialEq, Eq)]
pub enum RutifyError {
    Network { message: String },
    Api { status: String, message: String },
    Parse { message: String },
    Auth { message: String },
    Config { message: String },
    Unknown { message: String },
}

/// `RutifyError` over sequences of characters.
pub enum RutifyErrorView {
    Network { message: Seq<char> },
    Api { status: Seq<char>, message: Seq<char> },
    Parse { message: Seq<char> },
    Auth { message: Seq<char> },
    Config { message: Seq<char> },
    Unknown { message: Seq<char> },
}

impl View for RutifyError {
    type V = RutifyErrorView;

    open spec fn view(&self) -> RutifyErrorView {
        match self {
            RutifyError::Network { message } => RutifyErrorView::Network { message: message@ },
            RutifyError::Api { status, message } => RutifyErrorView::Api {
                status: status@,
                message: message@,
            },
            RutifyError::Parse { message } => RutifyErrorView::Parse { message: message@ },
            RutifyError::Auth { message } => RutifyErrorView::Auth { message: message@ },
            RutifyError::Config { message } => RutifyErrorView::Config { message: message@ },
            RutifyError::Unknown { message } => RutifyErrorView::Unknown { message: message@ },
        }
    }
}

/// The line that reports an error.
pub open spec fn error_line(error: RutifyErrorView) -> Seq<char> {
    match error {
        RutifyErrorView::Network { message } => "Network error: "@ + message,
        RutifyErrorView::Api { status, message } => "API error ["@ + status + "]: "@ + message,
        RutifyErrorView::Parse { message } => "Parse error: "@ + message,
        RutifyErrorView::Auth { message } => "Auth error: "@ + message,
        RutifyErrorView::Config { message } => "Config error: "@ + message,
        RutifyErrorView::Unknown { message } => "Unknown error: "@ + message,
    }
}

impl RutifyError {
    /// The line that reports the error.
    pub fn to_string(&self) -> (line: String)
        ensures
            line@ == error_line(self@),
    {
        match self {
            RutifyError::Network { message } => join2("Network error: ", message.as_str()),
            RutifyError::Api { status, message } => {
                let head = join2("API error [", status.as_str());
                head.concat("]: ").concat(message.as_str())
            },
            RutifyError::Parse { message } => join2("Parse error: ", message.as_str()),
            RutifyError::Auth { message } => join2("Auth error: ", message.as_str()),
            RutifyError::Config { message } => join2("Config error: ", message.as_str()),
            RutifyError::Unknown { message } => join2("Unknown error: ", message.as_str()),
        }
    }
}

/// The result of a client operation.
pub type RutifyResult<T> = Result<T, RutifyError>;

} // verus!

//! The client of the server's API: where each request goes, and what each
//! answer means. Sending and receiving are the caller's.

use crate::model::{ApiResponse, NotifyEvent, WebSocketMessage};
use crate::sdk::error::{SdkError, SdkErrorView};
use crate::text::{
    decimal_text, i64_text, join2, join3, optional_text, replace_all, replaced, text_eq,
    trim_end_matches, trim_start_matches, without_leading, without_trailing,
};
use std::time::Duration;
use vstd::prelude::*;

verus! {

/// Seconds that a request may take where no other limit is set.
pub const DEFAULT_TIMEOUT_SECONDS: u64 = 30;

/// The span of time of a number of whole seconds, as `Duration::from_secs` gives it.
pub uninterp spec fn seconds(count: u64) -> Duration;

/// Calls `Duration::from_secs` of the standard library. The span is named `seconds`.
#[verifier::external_body]
pub(crate) fn duration_of_seconds(count: u64) -> (span: Duration)
    ensures
        span == seconds(count),
{
    Duration::from_secs(count)
}

/// `Duration::clone` of the standard library: a span of time is copied as it is.
pub assume_specification[ <Duration as Clone>::clone ](span: &Duration) -> (copy: Duration)
    ensures
        copy == *span,
;

/// How a request is made.
#[derive(Debug, Clone, Copy, PartialEq, Eq, Structural)]
pub enum Method {
    Get,
    Post,
    Delete,
}

/// A request that is ready to be sent: where it goes, and what authorizes it.
/// A body, where the request has one, is the caller's to add.
#[derive(Debug, Clone, PartialEq, Eq)]
pub struct RequestPlan {
    pub method: Method,
    pub url: String,
    /// The value of the `Authorization` header, where one is sent.
    pub authorization: Option<String>,
    pub timeout: Duration,
}

/// `RequestPlan` over sequences of characters.
pub struct RequestPlanView {
    pub method: Method,
    pub url: Seq<char>,
    pub authorization: Option<Seq<char>>,
    pub timeout: Duration,
}

impl View for RequestPlan {
    type V = RequestPlanView;

    open spec fn view(&self) -> RequestPlanView {
        RequestPlanView {
            method: self.method,
            url: self.url@,
            authorization: optional_text(self.authorization),
            timeout: self.timeout,
        }
    }
}

/// A client of one server.
#[derive(Debug, Clone)]
pub struct RutifyClient {
    pub base_url: String,
    pub timeout: Duration,
    /// The notify token, where the client has one.
    pub token: Option<String>,
    /// The user session token, where a user is logged in.
    pub user_token: Option<String>,
}

/// `RutifyClient` over sequences of characters.
pub struct RutifyClientView {
    pub base_url: Seq<char>,
    pub timeout: Duration,
    pub token: Option<Seq<char>>,
    pub user_token: Option<Seq<char>>,
}

impl View for RutifyClient {
    type V = RutifyClientView;

    open spec fn view(&self) -> RutifyClientView {
        RutifyClientView {
            base_url: self.base_url@,
            timeout: self.timeout,
            token: optional_text(self.token),
            user_token: optional_text(self.user_token),
        }
    }
}

/// The value of an `Authorization` header for a bearer token.
pub open spec fn bearer_header(token: Option<Seq<char>>) -> Option<Seq<char>> {
    match token {
        Some(token) => Some("Bearer "@ + token),
        None => None,
    }
}

/// The address of an API route.
pub open spec fn api_address(base_url: Seq<char>, endpoint: Seq<char>) -> Seq<char> {
    without_trailing(base_url, '/') + "/api/"@ + without_leading(endpoint, "/"@)
}

/// The address of the event stream, with the notify token where there is one.
pub open spec fn stream_address(base_url: Seq<char>, token: Option<Seq<char>>) -> Seq<char> {
    let address = replaced(without_trailing(base_url, '/'), "http"@, "ws"@) + "/ws"@;
    match token {
        Some(token) => address + "?token="@ + token,
        None => address,
    }
}

/// The value of an `Authorization` header for a bearer token.
fn bearer_value(token: &Option<String>) -> (header: Option<String>)
    ensures
        optional_text(header) == bearer_header(optional_text(*token)),
{
    match token {
        Some(token) => Some(join2("Bearer ", token.as_str())),
        None => None,
    }
}

impl RutifyClient {
    /// The client of the server at `base_url` that has just been made:
    /// without tokens, with the default limit on the time of a request, and
    /// with the slashes at the end of the address dropped.
    pub open spec fn fresh(base_url: Seq<char>) -> RutifyClientView {
        RutifyClientView {
            base_url: without_trailing(base_url, '/'),
            timeout: seconds(DEFAULT_TIMEOUT_SECONDS),
            token: None,
            user_token: None,
        }
    }

    /// A client of the server at `base_url`, without tokens. Slashes at the
    /// end of the address are dropped.
    pub fn new(base_url: &str) -> (client: RutifyClient)
        ensures
            client@ == RutifyClient::fresh(base_url@),
    {
        RutifyClient {
            base_url: String::from_str(trim_end_matches(base_url, '/')),
            timeout: duration_of_seconds(DEFAULT_TIMEOUT_SECONDS),
            token: None,
            user_token: None,
        }
    }

    /// The client with this notify token.
    pub fn with_token(self, token: &str) -> (client: RutifyClient)
        ensures
            client@ == (RutifyClientView { token: Some(token@), ..self@ }),
    {
        RutifyClient { token: Some(String::from_str(token)), ..self }
    }

    /// The client with this user session token.
    pub fn with_user_token(self, user_token: &str) -> (client: RutifyClient)
        ensures
            client@ == (RutifyClientView { user_token: Some(user_token@), ..self@ }),
    {
        RutifyClient { user_token: Some(String::from_str(user_token)), ..self }
    }

    /// Sets the user session token.
    pub fn set_user_token(&mut self, user_token: &str)
        ensures
            final(self)@ == (RutifyClientView { user_token: Some(user_token@), ..old(self)@ }),
    {
        self.user_token = Some(String::from_str(user_token));
    }

    /// Forgets the user session token.
    pub fn clear_user_token(&mut self)
        ensures
            final(self)@ == (RutifyClientView { user_token: None, ..old(self)@ }),
    {
        self.user_token = None;
    }

    /// Whether a user is logged in.
    pub fn has_user_token(&self) -> (has: bool)
        ensures
            has == self@.user_token is Some,
    {
        self.user_token.is_some()
    }

    /// Sets the notify token.
    pub fn set_token(&mut self, token: &str)
        ensures
            final(self)@ == (RutifyClientView { token: Some(token@), ..old(self)@ }),
    {
        self.token = Some(String::from_str(token));
    }

    /// Forgets the notify token.
    pub fn clear_token(&mut self)
        ensures
            final(self)@ == (RutifyClientView { token: None, ..old(self)@ }),
    {
        self.token = None;
    }

    /// The client with this limit on the time of a request.
    pub fn with_timeout(self, timeout: Duration) -> (client: RutifyClient)
        ensures
            client@ == (RutifyClientView { timeout, ..self@ }),
    {
        RutifyClient { timeout, ..self }
    }

    /// The request for an API route: authorized by the notify token.
    pub fn api_request(&self, endpoint: &str) -> (plan: RequestPlan)
        ensures
            plan@ == (RequestPlanView {
                method: Method::Get,
                url: api_address(self@.base_url, endpoint@),
                authorization: bearer_header(self@.token),
                timeout: self@.timeout,
            }),
    {
        let base = trim_end_matches(self.base_url.as_str(), '/');
        let route = trim_start_matches(endpoint, "/");
        RequestPlan {
            method: Method::Get,
            url: join3(base, "/api/", route),
            authorization: bearer_value(&self.token),
            timeout: self.timeout,
        }
    }

    /// The request that sends a notification: authorized by the notify token.
    pub fn notify_request(&self) -> (plan: RequestPlan)
        ensures
            plan@ == (RequestPlanView {
                method: Method::Post,
                url: without_trailing(self@.base_url, '/') + "/notify"@,
                authorization: bearer_header(self@.token),
                timeout: self@.timeout,
            }),
    {
        RequestPlan {
            method: Method::Post,
            url: join2(trim_end_matches(self.base_url.as_str(), '/'), "/notify"),
            authorization: bearer_value(&self.token),
            timeout: self.timeout,
        }
    }

    /// The address of the event stream: the server's address with `ws` in the
    /// place of `http`, and the notify token as a parameter.
    pub fn websocket_url(&self) -> (url: String)
        ensures
            url@ == stream_address(self@.base_url, self@.token),
    {
        proof {
            reveal_strlit("http");
        }
        let base = trim_end_matches(self.base_url.as_str(), '/');
        let address = replace_all(base, "http", "ws").concat("/ws");
        match &self.token {
            Some(token) => address.concat("?token=").concat(token.as_str()),
            None => address,
        }
    }

    /// A request under `/auth`, without authorization: registration and login.
    pub fn open_request(&self, path: &str) -> (plan: RequestPlan)
        ensures
            plan@ == (RequestPlanView {
                method: Method::Post,
                url: self@.base_url + "/auth/"@ + path@,
                authorization: None,
                timeout: self@.timeout,
            }),
    {
        RequestPlan {
            method: Method::Post,
            url: join3(self.base_url.as_str(), "/auth/", path),
            authorization: None,
            timeout: self.timeout,
        }
    }

    /// A request under `/auth` that is authorized by the user session token.
    pub fn user_request(&self, method: Method, path: &str) -> (plan: RequestPlan)
        ensures
            plan@ == (RequestPlanView {
                method,
                url: self@.base_url + "/auth/"@ + path@,
                authorization: bearer_header(self@.user_token),
                timeout: self@.timeout,
            }),
    {
        RequestPlan {
            method,
            url: join3(self.base_url.as_str(), "/auth/", path),
            authorization: bearer_value(&self.user_token),
            timeout: self.timeout,
        }
    }

    /// The request that revokes one of the user's tokens.
    pub fn delete_token_request(&self, token_id: i32) -> (plan: RequestPlan)
        ensures
            plan@ == (RequestPlanView {
                method: Method::Delete,
                url: self@.base_url + "/auth/"@ + ("tokens/"@ + decimal_text(token_id as int)),
                authorization: bearer_header(self@.user_token),
                timeout: self@.timeout,
            }),
    {
        let path = join2("tokens/", i64_text(token_id as i64).as_str());
        self.user_request(Method::Delete, path.as_str())
    }
}

/// What the envelope of an API answer holds: the data, where the status is `ok`.
pub fn unwrap_response<T>(response: ApiResponse<T>) -> (result: Result<T, SdkError>)
    ensures
        match result {
            Ok(data) => response.status@ == "ok"@ && data == response.data,
            Err(error) => response.status@ != "ok"@ && error@ == (SdkErrorView::ApiError {
                status: response.status@,
            }),
        },
{
    if text_eq(response.status.as_str(), "ok") {
        Ok(response.data)
    } else {
        Err(SdkError::ApiError { status: response.status })
    }
}

/// The answer to a request for a token, as the first token route gives it.
#[derive(Debug, Clone, PartialEq, Eq)]
pub struct TokenResponse {
    pub token: String,
    pub token_id: String,
    pub usage: String,
    pub expires_at: String,
}

/// A frame of the event stream, as the transport hands it over.
#[derive(Debug, Clone, PartialEq, Eq)]
pub enum Frame {
    /// Text, with the event that it holds where it holds one.
    Text { text: String, event: Option<NotifyEvent> },
    /// Bytes: with the text that they are, where they are text, and the
    /// event that the text holds, where it holds one.
    Binary { text: Option<String>, event: Option<NotifyEvent> },
    Close,
    Ping,
    Pong,
    /// Reading failed, with this report.
    Failed(String),
}

/// What a client does with a frame.
#[derive(Debug, Clone, PartialEq, Eq)]
pub struct FrameVerdict {
    /// What is handed to the listener, if anything.
    pub message: Option<WebSocketMessage>,
    /// Whether a pong is sent back.
    pub pong: bool,
    /// Whether reading stops.
    pub stop: bool,
}

/// Decides what to do with a frame: events and texts are handed on, a ping
/// is answered, a close or a failure is handed on and ends the reading.
pub fn judge_frame(frame: Frame) -> (verdict: FrameVerdict)
    ensures
        verdict.pong == (frame is Ping),
        verdict.stop == (frame is Close || frame is Failed),
        match frame {
            Frame::Text { text, event } => match event {
                Some(held) => verdict.message == Some(WebSocketMessage::Event(held)),
                None => verdict.message == Some(WebSocketMessage::Text(text)),
            },
            Frame::Binary { text, event } => match text {
                Some(decoded) => match event {
                    Some(held) => verdict.message == Some(WebSocketMessage::Event(held)),
                    None => verdict.message == Some(WebSocketMessage::Text(decoded)),
                },
                None => verdict.message is None,
            },
            Frame::Close => verdict.message == Some(WebSocketMessage::Close),
            Frame::Ping => verdict.message is None,
            Frame::Pong => verdict.message is None,
            Frame::Failed(report) => verdict.message == Some(
                WebSocketMessage::Error { message: report },
            ),
        },
{
    match frame {
        Frame::Text { text, event } => FrameVerdict {
            message: Some(
                match event {
                    Some(held) => WebSocketMessage::Event(held),
                    None => WebSocketMessage::Text(text),
                },
            ),
            pong: false,
            stop: false,
        },
        Frame::Binary { text, event } => FrameVerdict {
            message: match text {
                Some(decoded) => Some(
                    match event {
                        Some(held) => WebSocketMessage::Event(held),
                        None => WebSocketMessage::Text(decoded),
                    },
                ),
                None => None,
            },
            pong: false,
            stop: false,
        },
        Frame::Close => FrameVerdict {
            message: Some(WebSocketMessage::Close),
            pong: false,
            stop: true,
        },
        Frame::Ping => FrameVerdict { message: None, pong: true, stop: false },
        Frame::Pong => FrameVerdict { message: None, pong: false, stop: false },
        Frame::Failed(report) => FrameVerdict {
            message: Some(WebSocketMessage::Error { message: report }),
            pong: false,
            stop: true,
        },
    }
}

} // verus!

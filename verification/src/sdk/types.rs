//! The data of the first client, whose events carry no time and whose
//! notifications carry their time as text.

use crate::model::NotificationData;
use crate::sdk::client::Frame;
use vstd::prelude::*;

verus! {

/// A stored notification as the first API lists it.
#[derive(Debug, Clone, PartialEq, Eq)]
pub struct NotifyItemData {
    pub id: i32,
    pub title: String,
    pub notify: String,
    pub device: String,
    pub received_at: String,
}

/// What subscribers of the first API are sent for one notification.
#[derive(Debug, Clone, PartialEq, Eq)]
pub struct NotifyEvent {
    pub event: String,
    pub data: NotificationData,
}

/// What the callback of the first client is handed.
#[derive(Debug, Clone, PartialEq, Eq)]
pub enum NotificationMessage {
    Event(NotifyEvent),
    Text(String),
    Close,
    Error(String),
}

/// An event without its time.
pub fn timeless(event: crate::model::NotifyEvent) -> (plain: NotifyEvent)
    ensures
        plain.event == event.event,
        plain.data == event.data,
{
    NotifyEvent { event: event.event, data: event.data }
}

/// Decides what the callback is handed for a frame, and whether reading
/// stops. Text is handed on as the event that it holds, or as itself; bytes
/// are handed on as text where they are text, never as an event; a close or
/// a failure is handed on and ends the reading; pings and pongs are passed
/// over.
pub fn judge_frame_for_callback(frame: Frame) -> (verdict: (Option<NotificationMessage>, bool))
    ensures
        verdict.1 == (frame is Close || frame is Failed),
        match frame {
            Frame::Text { text, event } => match event {
                Some(held) => verdict.0 matches Some(NotificationMessage::Event(plain))
                    && plain.event == held.event && plain.data == held.data,
                None => verdict.0 == Some(NotificationMessage::Text(text)),
            },
            Frame::Binary { text, event } => match text {
                Some(decoded) => verdict.0 == Some(NotificationMessage::Text(decoded)),
                None => verdict.0 is None,
            },
            Frame::Close => verdict.0 == Some(NotificationMessage::Close),
            Frame::Ping => verdict.0 is None,
            Frame::Pong => verdict.0 is None,
            Frame::Failed(report) => verdict.0 == Some(NotificationMessage::Error(report)),
        },
{
    match frame {
        Frame::Text { text, event } => match event {
            Some(held) => (Some(NotificationMessage::Event(timeless(held))), false),
            None => (Some(NotificationMessage::Text(text)), false),
        },
        Frame::Binary { text, event } => match text {
            Some(decoded) => (Some(NotificationMessage::Text(decoded)), false),
            None => (None, false),
        },
        Frame::Close => (Some(NotificationMessage::Close), true),
        Frame::Ping => (None, false),
        Frame::Pong => (None, false),
        Frame::Failed(report) => (Some(NotificationMessage::Error(report)), true),
    }
}

/// Whether a message can be sent: only over a connection that is there.
pub fn send_websocket_message(connected: bool) -> (result: Result<(), crate::sdk::error::SdkError>)
    ensures
        match result {
            Ok(_) => connected,
            Err(error) => !connected && error@ == crate::sdk::error::SdkErrorView::NetworkError(
                "WebSocket not connected"@,
            ),
        },
{
    if connected {
        Ok(())
    } else {
        Err(crate::sdk::error::SdkError::NetworkError(String::from_str("WebSocket not connected")))
    }
}

} // verus!

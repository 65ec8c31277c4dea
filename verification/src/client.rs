//! The state that a client keeps of what the server told it, and how it is
//! written out.

use crate::clock::{format_plain, plain_text};
use crate::model::{NotifyEvent, NotifyItem, NotifyItemView, Stats, WebSocketMessage};
use crate::panel::{arrived_item, item_of_event};
use crate::sdk::client::{RutifyClient, RutifyClientView};
use crate::text::{decimal_text, i64_text, or_empty, text_or_empty};
use std::collections::VecDeque;
use vstd::prelude::*;

verus! {

/// The most notifications that a client keeps.
pub const CACHE_LIMIT: usize = 100;

/// What a listener is told of the connection.
#[derive(Debug, Clone, PartialEq, Eq)]
pub enum WebSocketNotification {
    Event(NotifyEvent),
    Text(String),
    Error { message: String },
    Close,
}

/// The views of a row of notifications.
pub open spec fn item_views(items: Seq<NotifyItem>) -> Seq<NotifyItemView> {
    Seq::new(items.len(), |i: int| items[i]@)
}

/// The notifications that are kept once one more has arrived: the newest
/// `CACHE_LIMIT`, oldest first.
pub open spec fn cached(kept: Seq<NotifyItemView>, arrived: NotifyItemView) -> Seq<
    NotifyItemView,
> {
    if kept.len() >= CACHE_LIMIT {
        kept.skip(1).push(arrived)
    } else {
        kept.push(arrived)
    }
}

/// What a client holds: the connection settings and what it has been told.
pub struct ClientState {
    pub client: RutifyClient,
    pub notifications: VecDeque<NotifyItem>,
    pub stats: Option<Stats>,
}

impl ClientState {
    /// The state of a client that has been told nothing yet.
    pub fn new(server_url: &str) -> (state: ClientState)
        ensures
            state.client@ == RutifyClient::fresh(server_url@),
            state.notifications@.len() == 0,
            state.stats is None,
    {
        ClientState {
            client: RutifyClient::new(server_url),
            notifications: VecDeque::with_capacity(CACHE_LIMIT),
            stats: None,
        }
    }

    /// The state of a client that has a notify token.
    pub fn with_token(server_url: &str, token: &str) -> (state: ClientState)
        ensures
            state.client@ == (RutifyClientView {
                token: Some(token@),
                ..RutifyClient::fresh(server_url@)
            }),
            state.notifications@.len() == 0,
            state.stats is None,
    {
        ClientState {
            client: RutifyClient::new(server_url).with_token(token),
            notifications: VecDeque::with_capacity(CACHE_LIMIT),
            stats: None,
        }
    }

    /// Sets the notify token.
    pub fn set_token(&mut self, token: &str)
        ensures
            final(self).client@ == (RutifyClientView { token: Some(token@), ..old(self).client@ }),
            final(self).notifications == old(self).notifications,
            final(self).stats == old(self).stats,
    {
        self.client.set_token(token);
    }

    /// Forgets the notify token.
    pub fn clear_token(&mut self)
        ensures
            final(self).client@ == (RutifyClientView { token: None, ..old(self).client@ }),
            final(self).notifications == old(self).notifications,
            final(self).stats == old(self).stats,
    {
        self.client.clear_token();
    }

    /// Whether the client has a notify token.
    pub fn has_token(&self) -> (has: bool)
        ensures
            has == self.client@.token is Some,
    {
        self.client.token.is_some()
    }

    /// Keeps the notifications that the server listed, in the place of those
    /// kept before.
    pub fn store_notifies(&mut self, notifies: &Vec<NotifyItem>)
        ensures
            item_views(final(self).notifications@) == item_views(notifies@),
            final(self).client == old(self).client,
            final(self).stats == old(self).stats,
    {
        self.notifications.clear();
        let mut i: usize = 0;
        while i < notifies.len()
            invariant
                i <= notifies.len(),
                self.client == old(self).client,
                self.stats == old(self).stats,
                item_views(self.notifications@) == item_views(notifies@.take(i as int)),
            decreases notifies.len() - i,
        {
            let ghost before = self.notifications@;
            self.notifications.push_back(notifies[i].duplicate());
            assert(item_views(self.notifications@) =~= item_views(before).push(
                notifies@[i as int]@,
            ));
            i += 1;
        }
    }

    /// Keeps the statistics that the server gave.
    pub fn store_stats(&mut self, stats: Stats)
        ensures
            final(self).stats == Some(stats),
            final(self).client == old(self).client,
            final(self).notifications == old(self).notifications,
    {
        self.stats = Some(stats);
    }

    /// Takes in a message from the connection. An event is kept, the oldest
    /// kept notification making room where the limit is reached, and the
    /// listener is told; a text or an error is passed on; a close is passed
    /// on and ends the listening; anything else is dropped.
    pub fn on_message(&mut self, message: WebSocketMessage) -> (told: (
        Option<WebSocketNotification>,
        bool,
    ))
        ensures
            final(self).client == old(self).client,
            final(self).stats == old(self).stats,
            told.1 == (message is Close),
            match message {
                WebSocketMessage::Event(event) => {
                    &&& told.0 == Some(WebSocketNotification::Event(event))
                    &&& item_views(final(self).notifications@) == cached(
                        item_views(old(self).notifications@),
                        arrived_item(event@),
                    )
                },
                WebSocketMessage::Text(text) => {
                    &&& told.0 == Some(WebSocketNotification::Text(text))
                    &&& final(self).notifications == old(self).notifications
                },
                WebSocketMessage::Error { message: report } => {
                    &&& told.0 == Some(WebSocketNotification::Error { message: report })
                    &&& final(self).notifications == old(self).notifications
                },
                WebSocketMessage::Close => {
                    &&& told.0 == Some(WebSocketNotification::Close)
                    &&& final(self).notifications == old(self).notifications
                },
                _ => told.0 is None && final(self).notifications == old(self).notifications,
            },
    {
        match message {
            WebSocketMessage::Event(event) => {
                if self.notifications.len() >= CACHE_LIMIT {
                    self.notifications.pop_front();
                }
                self.notifications.push_back(item_of_event(&event));
                (Some(WebSocketNotification::Event(event)), false)
            },
            WebSocketMessage::Text(text) => (Some(WebSocketNotification::Text(text)), false),
            WebSocketMessage::Error { message } => (
                Some(WebSocketNotification::Error { message }),
                false,
            ),
            WebSocketMessage::Close => (Some(WebSocketNotification::Close), true),
            _ => (None, false),
        }
    }
}

/// Whether the server counts as healthy: it does when it answered the
/// request for its statistics.
pub fn health_check<E>(answer: &Result<Stats, E>) -> (healthy: bool)
    ensures
        healthy == answer is Ok,
{
    answer.is_ok()
}

/// A notification, written out.
pub open spec fn notification_text(notify: NotifyItemView) -> Seq<char> {
    notify.title + " - "@ + notify.notify + " ("@ + notify.device + ")\nReceived: "@ + or_empty(
        plain_text(notify.received_at as int),
    )
}

/// Writes a notification out: title, message and device, and below them the
/// time of receipt.
pub fn format_notification(notify: &NotifyItem) -> (text: String)
    ensures
        text@ == notification_text(notify@),
{
    let received = text_or_empty(format_plain(notify.received_at));
    String::from_str(notify.title.as_str()).concat(" - ").concat(notify.notify.as_str()).concat(
        " (",
    ).concat(notify.device.as_str()).concat(")\nReceived: ").concat(received.as_str())
}

/// The statistics, written out.
pub open spec fn stats_text(stats: Stats) -> Seq<char> {
    "Today's notifications: "@ + decimal_text(stats.today_count as int)
        + "\nTotal notifications: "@ + decimal_text(stats.total_count as int)
        + "\nActive devices: "@ + decimal_text(stats.device_count as int) + "\nServer running: "@
        + if stats.is_running {
        "✅ Yes"@
    } else {
        "❌ No"@
    }
}

/// Writes the statistics out, one count to a line.
pub fn format_stats(stats: &Stats) -> (text: String)
    ensures
        text@ == stats_text(*stats),
{
    let today = i64_text(stats.today_count as i64);
    let total = i64_text(stats.total_count as i64);
    let devices = i64_text(stats.device_count as i64);
    String::from_str("Today's notifications: ").concat(today.as_str()).concat(
        "\nTotal notifications: ",
    ).concat(total.as_str()).concat("\nActive devices: ").concat(devices.as_str()).concat(
        "\nServer running: ",
    ).concat(
        if stats.is_running {
            "✅ Yes"
        } else {
            "❌ No"
        },
    )
}

} // verus!

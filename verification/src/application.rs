//! The desktop application: what its window shows of the client's state.

use crate::client::ClientState;
use crate::model::{NotifyItem, Stats};
use crate::panel::{loaded_line, status_word};
use crate::text::{join3, u64_text};
use std::collections::VecDeque;
use vstd::prelude::*;

verus! {

/// The server that the application addresses where none is named.
pub const DEFAULT_SERVER: &'static str = "http://127.0.0.1:8080";

/// What the window shows of the statistics.
#[derive(Debug, Clone, PartialEq, Eq)]
pub struct StatsDisplay {
    pub today_count: i32,
    pub total_count: i32,
    pub device_count: i32,
    pub server_status: String,
}

/// What the application holds.
pub struct AppState {
    pub client_state: ClientState,
}

impl AppState {
    /// The state of an application that has been told nothing yet.
    pub fn new(server_url: &str) -> (state: AppState)
        ensures
            state.client_state.client@ == crate::sdk::client::RutifyClient::fresh(server_url@),
            state.client_state.notifications@.len() == 0,
            state.client_state.stats is None,
    {
        AppState { client_state: ClientState::new(server_url) }
    }

    /// The notifications that are kept.
    pub fn notifications(&self) -> (kept: &VecDeque<NotifyItem>)
        ensures
            *kept == self.client_state.notifications,
    {
        &self.client_state.notifications
    }

    /// The statistics that are kept.
    pub fn stats(&self) -> (kept: Option<Stats>)
        ensures
            kept == self.client_state.stats,
    {
        self.client_state.stats
    }
}

/// The status line that the window shows for the notifications that are kept.
pub fn update_ui_notifications(notifications: &VecDeque<NotifyItem>) -> (status: String)
    ensures
        status@ == loaded_line(notifications@.len()),
{
    let count = u64_text(notifications.len() as u64);
    join3("Loaded ", count.as_str(), " notifications")
}

/// What the window shows of the statistics that are kept; nothing where
/// none are kept.
pub fn update_ui_stats(stats: &Option<Stats>) -> (shown: Option<StatsDisplay>)
    ensures
        match shown {
            Some(display) => stats matches Some(held) && display.today_count == held.today_count
                && display.total_count == held.total_count && display.device_count
                == held.device_count && display.server_status@ == status_word(held.is_running),
            None => stats is None,
        },
{
    match stats {
        Some(held) => Some(
            StatsDisplay {
                today_count: held.today_count,
                total_count: held.total_count,
                device_count: held.device_count,
                server_status: String::from_str(
                    if held.is_running {
                        "Running"
                    } else {
                        "Stopped"
                    },
                ),
            },
        ),
        None => None,
    }
}

} // verus!

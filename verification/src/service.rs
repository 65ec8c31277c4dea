//! The server as a program: where it listens, and what its window lists.

use crate::clock::{format_plain, plain_text};
use crate::model::{NotifyItem, NotifyItemView};
use crate::text::{join2, or_empty, replace_all, replaced, text_or_empty};
use vstd::prelude::*;

verus! {

/// The address on which the server listens where none is configured.
pub const DEFAULT_ADDR: &'static str = "0.0.0.0:3000";

/// How many notifications the window shows as recent.
pub const RECENT_COUNT: usize = 5;

/// The address under which a client on the same machine reaches the server.
pub open spec fn service_address(configured: Option<Seq<char>>) -> Seq<char> {
    let address = match configured {
        Some(address) => address,
        None => DEFAULT_ADDR@,
    };
    "http://"@ + replaced(address, "0.0.0.0"@, "127.0.0.1"@)
}

/// The address under which a client on the same machine reaches the server:
/// the listening address, with the local address in the place of the
/// address that stands for every interface.
pub fn resolve_service_addr(configured: Option<&str>) -> (address: String)
    ensures
        address@ == service_address(crate::text::optional_str(configured)),
{
    proof {
        reveal_strlit("0.0.0.0");
    }
    let listening = match configured {
        Some(address) => address,
        None => DEFAULT_ADDR,
    };
    let local = replace_all(listening, "0.0.0.0", "127.0.0.1");
    join2("http://", local.as_str())
}

/// A notification as a row of the window.
#[derive(Debug, Clone, PartialEq, Eq)]
pub struct NotifyRow {
    pub id: i32,
    pub title: String,
    pub notify: String,
    pub device: String,
    pub received_at: String,
}

/// `NotifyRow` over sequences of characters.
pub struct NotifyRowView {
    pub id: i32,
    pub title: Seq<char>,
    pub notify: Seq<char>,
    pub device: Seq<char>,
    pub received_at: Seq<char>,
}

impl View for NotifyRow {
    type V = NotifyRowView;

    open spec fn view(&self) -> NotifyRowView {
        NotifyRowView {
            id: self.id,
            title: self.title@,
            notify: self.notify@,
            device: self.device@,
            received_at: self.received_at@,
        }
    }
}

/// The row that shows a notification.
pub open spec fn row_of(item: NotifyItemView) -> NotifyRowView {
    NotifyRowView {
        id: item.id,
        title: item.title,
        notify: item.notify,
        device: item.device,
        received_at: or_empty(plain_text(item.received_at as int)),
    }
}

/// The rows that show a list of notifications, one for each, in their order.
pub fn notify_model(items: &Vec<NotifyItem>) -> (rows: Vec<NotifyRow>)
    ensures
        rows@.len() == items@.len(),
        forall|i: int| 0 <= i < rows@.len() ==> (#[trigger] rows@[i])@ == row_of(items@[i]@),
{
    let mut rows: Vec<NotifyRow> = Vec::new();
    let mut i: usize = 0;
    while i < items.len()
        invariant
            i <= items.len(),
            rows@.len() == i,
            forall|k: int| 0 <= k < i ==> (#[trigger] rows@[k])@ == row_of(items@[k]@),
        decreases items.len() - i,
    {
        let item = &items[i];
        rows.push(
            NotifyRow {
                id: item.id,
                title: item.title.clone(),
                notify: item.notify.clone(),
                device: item.device.clone(),
                received_at: text_or_empty(format_plain(item.received_at)),
            },
        );
        i += 1;
    }
    rows
}

/// The notifications that the window shows as recent: the first five of the list.
pub fn recent_notifies(items: &Vec<NotifyItem>) -> (recent: Vec<NotifyItem>)
    ensures
        recent@.len() == if items@.len() < RECENT_COUNT {
            items@.len()
        } else {
            RECENT_COUNT as nat
        },
        forall|i: int| 0 <= i < recent@.len() ==> (#[trigger] recent@[i])@ == items@[i]@,
{
    let mut recent: Vec<NotifyItem> = Vec::new();
    let mut i: usize = 0;
    while i < items.len() && i < RECENT_COUNT
        invariant
            i <= items.len(),
            i <= RECENT_COUNT,
            recent@.len() == i,
            forall|k: int| 0 <= k < i ==> (#[trigger] recent@[k])@ == items@[k]@,
        decreases items.len() - i,
    {
        recent.push(items[i].duplicate());
        i += 1;
    }
    recent
}

/// What showing a list of notifications changes: the list is kept as it came,
/// all of it is shown, and its first five are shown as recent.
pub fn apply_notifies_to_ui(cache: &mut Vec<NotifyItem>, items: Vec<NotifyItem>) -> (shown: (
    Vec<NotifyRow>,
    Vec<NotifyRow>,
))
    ensures
        *final(cache) == items,
        shown.0@.len() == items@.len(),
        forall|i: int| 0 <= i < shown.0@.len() ==> (#[trigger] shown.0@[i])@ == row_of(items@[i]@),
        shown.1@.len() == if items@.len() < RECENT_COUNT {
            items@.len()
        } else {
            RECENT_COUNT as nat
        },
        forall|i: int| 0 <= i < shown.1@.len() ==> (#[trigger] shown.1@[i])@ == row_of(items@[i]@),
{
    let all = notify_model(&items);
    let recent = notify_model(&recent_notifies(&items));
    *cache = items;
    (all, recent)
}

} // verus!

//! Taking notifications in: defaults are filled in, the notification is
//! stored, and only then is it published to the subscribers.

use crate::broadcaster::{
    lemma_published_event_arrives, Broadcaster, BroadcasterView, ReceivedView,
};
use crate::clock::{day_number, day_of};
use crate::db::notifies::{
    by_received, has_id, stored, without_id, Model, ModelView, NotificationStore,
};
use crate::error::{AppError, AppErrorView};
use crate::model::{
    NotificationData, NotificationDataView, NotificationInput, NotificationInputView, NotifyEvent,
    NotifyEventView, NotifyItem, NotifyItemView, Stats,
};
use crate::ordering::descending_by;
use crate::text::text_eq;
use vstd::prelude::*;

verus! {

/// The title of a notification that was sent without one.
pub const DEFAULT_TITLE: &'static str = "default title";

/// The device of a notification that was sent without one.
pub const DEFAULT_DEVICE: &'static str = "default device";

/// The name of the event that a notification is published as.
pub const EVENT_NAME: &'static str = "notify";

/// A notification with the defaults in the place of what was left out.
pub open spec fn normalized(payload: NotificationInputView) -> NotificationDataView {
    NotificationDataView {
        notify: payload.notify,
        title: match payload.title {
            Some(title) => title,
            None => DEFAULT_TITLE@,
        },
        device: match payload.device {
            Some(device) => device,
            None => DEFAULT_DEVICE@,
        },
    }
}

/// Fills in the defaults of a notification.
pub fn normalize_notification(payload: NotificationInput) -> (data: NotificationData)
    ensures
        data@ == normalized(payload@),
{
    NotificationData {
        notify: payload.notify,
        title: match payload.title {
            Some(title) => title,
            None => String::from_str(DEFAULT_TITLE),
        },
        device: match payload.device {
            Some(device) => device,
            None => String::from_str(DEFAULT_DEVICE),
        },
    }
}

/// The event under which a notification is published.
pub open spec fn event_of(data: NotificationDataView, now: i64) -> NotifyEventView {
    NotifyEventView { event: EVENT_NAME@, data, timestamp: now }
}

/// The notification store and the bus, as a notification finds them.
pub struct RelayView {
    /// The stored notifications, oldest insertion first.
    pub records: Seq<ModelView>,
    /// The id that the next stored notification gets.
    pub next_key: i32,
    /// The bus that events are published to.
    pub bus: BroadcasterView,
}

/// Store and bus after a notification was taken in at `now`: it is stored and
/// published, both or neither. It is not stored where no id is left.
pub open spec fn taken_in(relay: RelayView, payload: NotificationInputView, now: i64) -> RelayView {
    if relay.next_key == i32::MAX {
        relay
    } else {
        RelayView {
            records: relay.records.push(stored(relay.next_key, normalized(payload), now)),
            next_key: (relay.next_key + 1) as i32,
            bus: relay.bus.publish(event_of(normalized(payload), now)),
        }
    }
}

/// Store and bus after a row of notifications, each with its time, was
/// taken in, one after the other.
pub open spec fn taken_in_all(
    relay: RelayView,
    arrivals: Seq<(NotificationInputView, i64)>,
) -> RelayView
    decreases arrivals.len(),
{
    if arrivals.len() == 0 {
        relay
    } else {
        taken_in(
            taken_in_all(relay, arrivals.drop_last()),
            arrivals.last().0,
            arrivals.last().1,
        )
    }
}

/// However many notifications are taken in while nobody is subscribed, and
/// as long as ids are left: each is stored exactly once, in the order of
/// arrival and behind what was stored before, and the bus stays as it was.
pub proof fn lemma_taken_in_unheard(relay: RelayView, arrivals: Seq<(NotificationInputView, i64)>)
    requires
        relay.bus.subscribers == 0,
        1 <= relay.next_key,
        relay.next_key + arrivals.len() <= i32::MAX,
    ensures
        taken_in_all(relay, arrivals).bus == relay.bus,
        taken_in_all(relay, arrivals).next_key == relay.next_key + arrivals.len(),
        taken_in_all(relay, arrivals).records.len() == relay.records.len() + arrivals.len(),
        forall|i: int|
            0 <= i < relay.records.len() ==> taken_in_all(relay, arrivals).records[i]
                == relay.records[i],
        forall|i: int|
            0 <= i < arrivals.len() ==> taken_in_all(relay, arrivals).records[relay.records.len()
                + i] == stored(
                (relay.next_key + i) as i32,
                normalized((#[trigger] arrivals[i]).0),
                arrivals[i].1,
            ),
    decreases arrivals.len(),
{
    if arrivals.len() > 0 {
        let front = arrivals.drop_last();
        lemma_taken_in_unheard(relay, front);
        let after = taken_in_all(relay, arrivals);
        assert forall|i: int| 0 <= i < arrivals.len() implies after.records[relay.records.len()
            + i] == stored(
            (relay.next_key + i) as i32,
            normalized((#[trigger] arrivals[i]).0),
            arrivals[i].1,
        ) by {
            if i < front.len() {
                assert(front[i] == arrivals[i]);
            }
        }
    }
}

/// A notification that is taken in while somebody is subscribed is stored
/// once and published once: the record stands last in the store, and a
/// subscriber that has kept up receives the event next, named `notify`, with
/// the message, title, device and time of the record.
pub proof fn lemma_taken_in_arrives(relay: RelayView, payload: NotificationInputView, now: i64)
    requires
        relay.next_key < i32::MAX,
        0 < relay.bus.capacity,
        relay.bus.retained.len() <= relay.bus.capacity,
        relay.bus.retained.len() <= relay.bus.published < u64::MAX,
        relay.bus.subscribers > 0,
        !relay.bus.closed,
    ensures
        ({
            let after = taken_in(relay, payload, now);
            let record = after.records.last();
            &&& after.records == relay.records.push(record)
            &&& after.bus.published == relay.bus.published + 1
            &&& after.bus.receive(relay.bus.published as u64) matches ReceivedView::Event(event)
            &&& event.event == EVENT_NAME@
            &&& event.data == normalized(payload)
            &&& event.timestamp == now
            &&& record.id == relay.next_key
            &&& record.notify == event.data.notify
            &&& record.title == Some(event.data.title)
            &&& record.device == Some(event.data.device)
            &&& record.received_at == event.timestamp
            &&& after.bus.receive(after.bus.advance(relay.bus.published as u64))
                == ReceivedView::Empty
        }),
{
    lemma_published_event_arrives(relay.bus, event_of(normalized(payload), now));
}

/// Stores a notification as received at `now`, with the defaults filled in,
/// and gives the record and the event that is to be published for it. Both
/// carry the same message, title, device and time.
pub fn store_notification(
    db: &mut NotificationStore,
    payload: NotificationInput,
    now: i64,
) -> (result: Result<(Model, NotifyEvent), AppError>)
    requires
        old(db).wf(),
    ensures
        final(db).wf(),
        match result {
            Ok(kept) => {
                &&& old(db).next_key() < i32::MAX
                &&& kept.0@ == stored(old(db).next_key(), normalized(payload@), now)
                &&& kept.1@ == event_of(normalized(payload@), now)
                &&& final(db)@ == old(db)@.push(kept.0@)
                &&& final(db).next_key() == old(db).next_key() + 1
            },
            Err(error) => {
                &&& old(db).next_key() == i32::MAX
                &&& error@ == AppErrorView::DatabaseError("Failed to store notification"@)
                &&& final(db)@ == old(db)@
                &&& final(db).next_key() == old(db).next_key()
            },
        },
{
    let data = normalize_notification(payload);
    let event = NotifyEvent {
        event: String::from_str(EVENT_NAME),
        data: data.duplicate(),
        timestamp: now,
    };
    match db.insert(data, now) {
        Ok(record) => Ok((record, event)),
        Err(_) => Err(AppError::DatabaseError(String::from_str("Failed to store notification"))),
    }
}

/// The number of subscribers that an event is published to.
pub open spec fn reached(bus: BroadcasterView) -> nat {
    if bus.closed || bus.published >= u64::MAX {
        0
    } else {
        bus.subscribers
    }
}

/// Publishes the event of a stored notification and says how many
/// subscribers it went to. That nobody is subscribed is no failure, and
/// neither is a bus that takes no more events: the publisher is told of
/// neither.
pub fn publish_notification(tx: &mut Broadcaster, event: NotifyEvent) -> (receivers: usize)
    requires
        old(tx).wf(),
    ensures
        final(tx).wf(),
        final(tx)@ == old(tx)@.publish(event@),
        receivers == reached(old(tx)@),
        old(tx)@.subscribers == 0 ==> receivers == 0 && final(tx)@ == old(tx)@,
{
    match tx.publish(event) {
        Ok(receivers) => receivers,
        Err(_) => 0,
    }
}

/// Takes a notification in at `now`: normalizes it, stores it, and then
/// publishes it. The stored record and the published event carry the same
/// message, title, device and time. A notification that could not be stored
/// is not published, and the caller is told; that nobody is subscribed is
/// no failure, and then the bus stays as it was.
pub fn receive_notify_logic(
    db: &mut NotificationStore,
    tx: &mut Broadcaster,
    payload: NotificationInput,
    now: i64,
) -> (result: Result<usize, AppError>)
    requires
        old(db).wf(),
        old(tx).wf(),
    ensures
        final(db).wf(),
        final(tx).wf(),
        (RelayView { records: final(db)@, next_key: final(db).next_key(), bus: final(tx)@ })
            == taken_in(
            RelayView { records: old(db)@, next_key: old(db).next_key(), bus: old(tx)@ },
            payload@,
            now,
        ),
        match result {
            Ok(receivers) => {
                &&& old(db).next_key() < i32::MAX
                &&& final(db)@ == old(db)@.push(
                    stored(old(db).next_key(), normalized(payload@), now),
                )
                &&& final(db).next_key() == old(db).next_key() + 1
                &&& final(tx)@ == old(tx)@.publish(event_of(normalized(payload@), now))
                &&& receivers == reached(old(tx)@)
            },
            Err(error) => {
                &&& old(db).next_key() == i32::MAX
                &&& error@ == AppErrorView::DatabaseError("Failed to store notification"@)
                &&& final(db)@ == old(db)@
                &&& final(db).next_key() == old(db).next_key()
                &&& final(tx)@ == old(tx)@
            },
        },
        old(tx)@.subscribers == 0 ==> final(tx)@ == old(tx)@,
{
    match store_notification(db, payload, now) {
        Ok(kept) => Ok(publish_notification(tx, kept.1)),
        Err(error) => Err(error),
    }
}

/// A stored notification as it is listed, with the defaults in the place of
/// what is missing.
pub open spec fn item_of(record: ModelView) -> NotifyItemView {
    NotifyItemView {
        id: record.id,
        title: match record.title {
            Some(title) => title,
            None => DEFAULT_TITLE@,
        },
        notify: record.notify,
        device: match record.device {
            Some(device) => device,
            None => DEFAULT_DEVICE@,
        },
        received_at: record.received_at,
    }
}

/// A stored notification as it is listed.
pub fn notify_item(record: &Model) -> (item: NotifyItem)
    ensures
        item@ == item_of(record@),
{
    NotifyItem {
        id: record.id,
        title: match &record.title {
            Some(title) => title.clone(),
            None => String::from_str(DEFAULT_TITLE),
        },
        notify: record.notify.clone(),
        device: match &record.device {
            Some(device) => device.clone(),
            None => String::from_str(DEFAULT_DEVICE),
        },
        received_at: record.received_at,
    }
}

/// Every stored notification, newest first, and their number.
pub fn list_notifies_handler(db: &NotificationStore) -> (listed: (Vec<NotifyItem>, usize))
    ensures
        listed.1 == db@.len(),
        listed.0@.len() == descending_by(db@, by_received()).len(),
        forall|i: int|
            0 <= i < listed.0@.len() ==> (#[trigger] listed.0@[i])@ == item_of(
                descending_by(db@, by_received())[i],
            ),
{
    let records = db.list();
    let mut items: Vec<NotifyItem> = Vec::new();
    let mut i: usize = 0;
    while i < records.len()
        invariant
            i <= records.len(),
            items@.len() == i,
            forall|k: int|
                0 <= k < i ==> (#[trigger] items@[k])@ == item_of(
                    crate::db::notifies::views(records@)[k],
                ),
        decreases records.len() - i,
    {
        items.push(notify_item(&records[i]));
        i += 1;
    }
    (items, db.len())
}

/// Deletes every stored notification and says how many went.
pub fn delete_all_notifies_handler(db: &mut NotificationStore) -> (deleted_count: usize)
    requires
        old(db).wf(),
    ensures
        final(db).wf(),
        final(db)@ == Seq::<ModelView>::empty(),
        final(db).next_key() == old(db).next_key(),
        deleted_count == old(db)@.len(),
{
    db.remove_all()
}

/// Deletes the stored notification with this id. The status is 200 where it
/// went and 404 where there was none.
pub fn delete_notify_by_id_handler(db: &mut NotificationStore, id: i32) -> (status: u16)
    requires
        old(db).wf(),
    ensures
        final(db).wf(),
        final(db)@ == without_id(old(db)@, id),
        final(db).next_key() == old(db).next_key(),
        status == if has_id(old(db)@, id) {
            200u16
        } else {
            404u16
        },
{
    if db.remove_by_id(id) {
        200
    } else {
        404
    }
}

/// How many records were received on a day.
pub open spec fn count_on_day(records: Seq<ModelView>, day: int) -> nat
    decreases records.len(),
{
    if records.len() == 0 {
        0
    } else if day_of(records.last().received_at) == day {
        count_on_day(records.drop_last(), day) + 1
    } else {
        count_on_day(records.drop_last(), day)
    }
}

/// Whether a record names this device.
pub open spec fn names_device(records: Seq<ModelView>, device: Seq<char>) -> bool {
    exists|i: int| 0 <= i < records.len() && (#[trigger] records[i]).device == Some(device)
}

/// How many different devices the records name.
pub open spec fn distinct_devices(records: Seq<ModelView>) -> nat
    decreases records.len(),
{
    if records.len() == 0 {
        0
    } else {
        distinct_devices(records.drop_last()) + match records.last().device {
            Some(device) => if names_device(records.drop_last(), device) {
                0nat
            } else {
                1nat
            },
            None => 0nat,
        }
    }
}

/// The devices that the records name.
pub open spec fn device_names(records: Seq<ModelView>) -> Set<Seq<char>> {
    Set::new(|device: Seq<char>| names_device(records, device))
}

/// `distinct_devices` counts the devices that the records name, each once.
pub proof fn lemma_distinct_devices(records: Seq<ModelView>)
    ensures
        device_names(records).finite(),
        device_names(records).len() == distinct_devices(records),
    decreases records.len(),
{
    if records.len() == 0 {
        assert(device_names(records) =~= Set::<Seq<char>>::empty());
    } else {
        let front = records.drop_last();
        let last = records.last();
        lemma_distinct_devices(front);
        assert forall|device: Seq<char>|
            names_device(records, device) <==> names_device(front, device) || last.device == Some(
                device,
            ) by {
            if names_device(records, device) {
                let i = choose|i: int|
                    0 <= i < records.len() && (#[trigger] records[i]).device == Some(device);
                if i < front.len() {
                    assert(front[i].device == Some(device));
                }
            }
        }
        match last.device {
            Some(device) => {
                assert(device_names(records) =~= device_names(front).insert(device));
            },
            None => {
                assert(device_names(records) =~= device_names(front));
            },
        }
    }
}

/// A count as the statistics show it: at most the largest number they hold.
pub open spec fn shown_count(count: nat) -> i32 {
    if count > i32::MAX {
        i32::MAX
    } else {
        count as i32
    }
}

/// The statistics over the records, with `now` telling which day is today.
pub open spec fn stats_of(records: Seq<ModelView>, now: i64) -> Stats {
    Stats {
        today_count: shown_count(count_on_day(records, day_of(now))),
        total_count: shown_count(records.len()),
        device_count: shown_count(distinct_devices(records)),
        is_running: true,
    }
}

/// A count as the statistics show it.
fn clamp_count(count: usize) -> (shown: i32)
    ensures
        shown == shown_count(count as nat),
{
    if count > i32::MAX as usize {
        i32::MAX
    } else {
        count as i32
    }
}

/// Whether one of the first `upto` records names this device.
fn device_seen(db: &NotificationStore, upto: usize, device: &str) -> (seen: bool)
    requires
        upto <= db@.len(),
    ensures
        seen == names_device(db@.take(upto as int), device@),
{
    let mut i: usize = 0;
    while i < upto
        invariant
            i <= upto <= db@.len(),
            forall|k: int| 0 <= k < i ==> (#[trigger] db@[k]).device != Some(device@),
        decreases upto - i,
    {
        let found = match &db.get(i).device {
            Some(name) => text_eq(name.as_str(), device),
            None => false,
        };
        if found {
            assert(db@.take(upto as int)[i as int].device == Some(device@));
            return true;
        }
        i += 1;
    }
    false
}

/// The statistics: how many notifications came in today, how many are
/// stored, and how many different devices they name.
pub fn stats_handler(db: &NotificationStore, now: i64) -> (stats: Stats)
    ensures
        stats == stats_of(db@, now),
        stats.device_count == shown_count(device_names(db@).len()),
{
    proof {
        lemma_distinct_devices(db@);
    }
    let today = day_number(now);
    let mut today_count: usize = 0;
    let mut device_count: usize = 0;
    let mut i: usize = 0;
    while i < db.len()
        invariant
            i <= db@.len(),
            today == day_of(now),
            today_count == count_on_day(db@.take(i as int), day_of(now)),
            device_count == distinct_devices(db@.take(i as int)),
            today_count <= i,
            device_count <= i,
        decreases db@.len() - i,
    {
        assert(db@.take(i + 1).drop_last() =~= db@.take(i as int));
        let record = db.get(i);
        if day_number(record.received_at) == today {
            today_count += 1;
        }
        let fresh = match &record.device {
            Some(device) => !device_seen(db, i, device.as_str()),
            None => false,
        };
        if fresh {
            device_count += 1;
        }
        i += 1;
    }
    assert(db@.take(i as int) =~= db@);
    Stats {
        today_count: clamp_count(today_count),
        total_count: clamp_count(db.len()),
        device_count: clamp_count(device_count),
        is_running: true,
    }
}

} // verus!

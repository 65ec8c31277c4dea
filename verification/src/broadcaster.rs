//! The broadcaster: one publisher side, any number of subscribers, each with
//! a cursor of its own into a bounded row of retained events. A subscriber
//! that falls behind loses the events it could not keep up with, is told how
//! many they were, and goes on.

use crate::model::{NotifyEvent, NotifyEventView};
use std::collections::VecDeque;
use vstd::prelude::*;

verus! {

/// The number of events that are retained where none is configured.
pub const DEFAULT_CAPACITY: usize = 200;

/// What a subscriber gets when it asks for its next event.
#[derive(Debug, Clone, PartialEq, Eq)]
pub enum Received {
    /// The next event, in the order of publication.
    Event(NotifyEvent),
    /// The subscriber fell behind: this many events were dropped for it. It
    /// goes on with the oldest event that is still retained.
    Lagged(u64),
    /// Nothing is waiting.
    Empty,
    /// Nothing is waiting, and nothing will come: the broadcaster is closed.
    Closed,
}

/// `Received` over sequences of characters.
pub enum ReceivedView {
    Event(NotifyEventView),
    Lagged(u64),
    Empty,
    Closed,
}

impl View for Received {
    type V = ReceivedView;

    open spec fn view(&self) -> ReceivedView {
        match self {
            Received::Event(event) => ReceivedView::Event(event@),
            Received::Lagged(count) => ReceivedView::Lagged(*count),
            Received::Empty => ReceivedView::Empty,
            Received::Closed => ReceivedView::Closed,
        }
    }
}

/// Why an event could not be published.
#[derive(Debug, Clone, Copy, PartialEq, Eq, Structural)]
pub enum BroadcastError {
    /// The broadcaster is closed.
    Closed,
    /// The count of published events has reached the largest number.
    Exhausted,
}

/// The state of a broadcaster.
pub struct BroadcasterView {
    /// The most events that are retained.
    pub capacity: nat,
    /// How many events have been published to subscribers so far.
    pub published: nat,
    /// The newest events, oldest first: the last `retained.len()` of those published.
    pub retained: Seq<NotifyEventView>,
    /// How many subscribers are attached.
    pub subscribers: nat,
    pub closed: bool,
}

impl BroadcasterView {
    /// The number, in the order of publication, of the oldest retained event.
    pub open spec fn oldest(self) -> int {
        self.published - self.retained.len()
    }

    /// The state after one more event.
    pub open spec fn publish(self, event: NotifyEventView) -> BroadcasterView {
        if self.closed || self.subscribers == 0 || self.published >= u64::MAX {
            self
        } else {
            BroadcasterView {
                published: self.published + 1,
                retained: if self.retained.len() < self.capacity {
                    self.retained.push(event)
                } else {
                    self.retained.push(event).skip(1)
                },
                ..self
            }
        }
    }

    /// The state after a row of events, one after the other.
    pub open spec fn publish_all(self, events: Seq<NotifyEventView>) -> BroadcasterView
        decreases events.len(),
    {
        if events.len() == 0 {
            self
        } else {
            self.publish_all(events.drop_last()).publish(events.last())
        }
    }

    /// What a subscriber whose cursor stands at `next` receives.
    pub open spec fn receive(self, next: u64) -> ReceivedView {
        if next < self.oldest() {
            ReceivedView::Lagged((self.oldest() - next) as u64)
        } else if next < self.published {
            ReceivedView::Event(self.retained[next - self.oldest()])
        } else if self.closed {
            ReceivedView::Closed
        } else {
            ReceivedView::Empty
        }
    }

    /// Where the cursor of a subscriber stands after it has received.
    pub open spec fn advance(self, next: u64) -> u64 {
        if next < self.oldest() {
            self.oldest() as u64
        } else if next < self.published {
            (next + 1) as u64
        } else {
            next
        }
    }
}

/// The views of a row of events.
pub open spec fn event_views(events: Seq<NotifyEvent>) -> Seq<NotifyEventView> {
    Seq::new(events.len(), |i: int| events[i]@)
}

/// A subscriber's place in the row of published events.
#[derive(Debug)]
pub struct Subscription {
    next: u64,
}

impl Subscription {
    /// The number, in the order of publication, of the event that comes next.
    pub closed spec fn next(&self) -> u64 {
        self.next
    }

    /// The number of the event that comes next.
    pub fn position(&self) -> (next: u64)
        ensures
            next == self.next(),
    {
        self.next
    }
}

/// An in-process bus for notification events.
pub struct Broadcaster {
    capacity: usize,
    published: u64,
    retained: VecDeque<NotifyEvent>,
    subscribers: usize,
    closed: bool,
}

impl View for Broadcaster {
    type V = BroadcasterView;

    closed spec fn view(&self) -> BroadcasterView {
        BroadcasterView {
            capacity: self.capacity as nat,
            published: self.published as nat,
            retained: event_views(self.retained@),
            subscribers: self.subscribers as nat,
            closed: self.closed,
        }
    }
}

impl Broadcaster {
    /// At least one event can be retained, no more are retained than the
    /// capacity allows, and none that was not published; the counts are such
    /// as a machine can hold.
    pub open spec fn wf(&self) -> bool {
        &&& 0 < self@.capacity <= usize::MAX
        &&& self@.retained.len() <= self@.capacity
        &&& self@.retained.len() <= self@.published <= u64::MAX
        &&& self@.subscribers <= usize::MAX
    }

    /// A broadcaster that retains up to `capacity` events, without
    /// subscribers and without events.
    pub fn new(capacity: usize) -> (bus: Broadcaster)
        requires
            capacity > 0,
        ensures
            bus.wf(),
            bus@ == (BroadcasterView {
                capacity: capacity as nat,
                published: 0,
                retained: Seq::empty(),
                subscribers: 0,
                closed: false,
            }),
    {
        let bus = Broadcaster {
            capacity,
            published: 0,
            retained: VecDeque::new(),
            subscribers: 0,
            closed: false,
        };
        assert(bus@.retained =~= Seq::<NotifyEventView>::empty());
        bus
    }

    /// The number of subscribers that are attached.
    pub fn subscriber_count(&self) -> (count: usize)
        ensures
            count == self@.subscribers,
    {
        self.subscribers
    }

    /// The number of events that are retained.
    pub fn retained_count(&self) -> (count: usize)
        ensures
            count == self@.retained.len(),
    {
        self.retained.len()
    }

    /// Attaches a subscriber. It receives the events published from now on,
    /// and none that came before. `None` where no further subscriber can be
    /// counted.
    pub fn subscribe(&mut self) -> (subscription: Option<Subscription>)
        requires
            old(self).wf(),
        ensures
            final(self).wf(),
            match subscription {
                Some(cursor) => {
                    &&& old(self)@.subscribers < usize::MAX
                    &&& cursor.next() == old(self)@.published
                    &&& final(self)@ == (BroadcasterView {
                        subscribers: old(self)@.subscribers + 1,
                        ..old(self)@
                    })
                },
                None => old(self)@.subscribers == usize::MAX && final(self)@ == old(self)@,
            },
    {
        if self.subscribers == usize::MAX {
            return None;
        }
        self.subscribers = self.subscribers + 1;
        Some(Subscription { next: self.published })
    }

    /// Releases a subscription. Nothing is forwarded to it any more.
    pub fn unsubscribe(&mut self, subscription: Subscription)
        requires
            old(self).wf(),
        ensures
            final(self).wf(),
            final(self)@ == (BroadcasterView {
                subscribers: if old(self)@.subscribers > 0 {
                    (old(self)@.subscribers - 1) as nat
                } else {
                    0
                },
                ..old(self)@
            }),
    {
        if self.subscribers > 0 {
            self.subscribers = self.subscribers - 1;
        }
    }

    /// Closes the broadcaster: what is retained can still be received,
    /// nothing more is published.
    pub fn close(&mut self)
        requires
            old(self).wf(),
        ensures
            final(self).wf(),
            final(self)@ == (BroadcasterView { closed: true, ..old(self)@ }),
    {
        self.closed = true;
    }

    /// Publishes an event to the subscribers that are attached, and says how
    /// many they are. Without subscribers this is a success that changes
    /// nothing. The publisher never waits: where the row of retained events
    /// is full its oldest event goes, and is lost to the subscribers that
    /// had not received it.
    pub fn publish(&mut self, event: NotifyEvent) -> (receivers: Result<usize, BroadcastError>)
        requires
            old(self).wf(),
        ensures
            final(self).wf(),
            final(self)@ == old(self)@.publish(event@),
            match receivers {
                Ok(count) => !old(self)@.closed && count == old(self)@.subscribers && (count > 0
                    ==> old(self)@.published < u64::MAX),
                Err(error) => if old(self)@.closed {
                    error == BroadcastError::Closed
                } else {
                    old(self)@.subscribers > 0 && old(self)@.published == u64::MAX && error
                        == BroadcastError::Exhausted
                },
            },
            old(self)@.subscribers == 0 && !old(self)@.closed ==> receivers == Ok::<
                usize,
                BroadcastError,
            >(0) && final(self)@ == old(self)@,
    {
        if self.closed {
            return Err(BroadcastError::Closed);
        }
        if self.subscribers == 0 {
            return Ok(0);
        }
        if self.published == u64::MAX {
            return Err(BroadcastError::Exhausted);
        }
        let ghost before = self@;
        let ghost added = event@;
        if self.retained.len() >= self.capacity {
            self.retained.pop_front();
            self.retained.push_back(event);
            assert(event_views(self.retained@) =~= before.retained.push(added).skip(1));
        } else {
            self.retained.push_back(event);
            assert(event_views(self.retained@) =~= before.retained.push(added));
        }
        self.published = self.published + 1;
        Ok(self.subscribers)
    }

    /// Gives a subscriber its next event without waiting. A subscriber that
    /// fell behind is first told how many events it lost, and its cursor is
    /// moved to the oldest event that is retained; it is not detached.
    pub fn try_recv(&self, subscription: &mut Subscription) -> (received: Received)
        requires
            self.wf(),
        ensures
            received@ == self@.receive(old(subscription).next()),
            final(subscription).next() == self@.advance(old(subscription).next()),
    {
        let oldest: u64 = self.published - (self.retained.len() as u64);
        if subscription.next < oldest {
            let lost = oldest - subscription.next;
            subscription.next = oldest;
            Received::Lagged(lost)
        } else if subscription.next < self.published {
            let index = (subscription.next - oldest) as usize;
            let event = self.retained[index].duplicate();
            subscription.next = subscription.next + 1;
            Received::Event(event)
        } else if self.closed {
            Received::Closed
        } else {
            Received::Empty
        }
    }
}

/// Publishing to a broadcaster without subscribers changes nothing, however
/// many events are published: a subscriber that attaches afterwards finds
/// the broadcaster as if they had never been sent.
pub proof fn lemma_publish_without_subscribers(bus: BroadcasterView, events: Seq<NotifyEventView>)
    requires
        bus.subscribers == 0,
    ensures
        bus.publish_all(events) == bus,
    decreases events.len(),
{
    if events.len() > 0 {
        lemma_publish_without_subscribers(bus, events.drop_last());
    }
}

/// A subscriber that fell behind is told once how many events it lost; after
/// that its cursor stands at the oldest retained event, and it receives the
/// retained events one by one, in the order of their publication, up to the
/// newest.
pub proof fn lemma_lag_then_resume(bus: BroadcasterView, next: u64, step: int)
    requires
        bus.retained.len() <= bus.published <= u64::MAX,
        next < bus.oldest(),
        0 <= step < bus.retained.len(),
    ensures
        bus.receive(next) == ReceivedView::Lagged((bus.oldest() - next) as u64),
        bus.oldest() - next > 0,
        bus.advance(next) == bus.oldest(),
        bus.receive((bus.oldest() + step) as u64) == ReceivedView::Event(bus.retained[step]),
        bus.advance((bus.oldest() + step) as u64) == bus.oldest() + step + 1,
{
}

/// A subscriber that has kept up receives an event that is published next,
/// whether or not an older event had to go for it.
pub proof fn lemma_published_event_arrives(bus: BroadcasterView, event: NotifyEventView)
    requires
        0 < bus.capacity,
        bus.retained.len() <= bus.capacity,
        bus.retained.len() <= bus.published < u64::MAX,
        bus.subscribers > 0,
        !bus.closed,
    ensures
        bus.publish(event).receive(bus.published as u64) == ReceivedView::Event(event),
        bus.publish(event).advance(bus.published as u64) == bus.published + 1,
        bus.publish(event).retained.len() <= bus.capacity,
{
}

/// The event with a given number in the order of publication, while it is
/// retained.
pub open spec fn event_numbered(bus: BroadcasterView, number: int) -> Option<NotifyEventView> {
    if bus.oldest() <= number < bus.published {
        Some(bus.retained[number - bus.oldest()])
    } else {
        None
    }
}

/// A cursor never moves back, and what a subscriber receives is the event
/// whose number its cursor stands at: so the events that one subscriber
/// receives come in the order of their publication, none of them twice.
pub proof fn lemma_order_kept(bus: BroadcasterView, next: u64)
    requires
        bus.retained.len() <= bus.published <= u64::MAX,
    ensures
        bus.advance(next) >= next,
        bus.receive(next) matches ReceivedView::Event(event) ==> event_numbered(bus, next as int)
            == Some(event) && bus.advance(next) == next + 1,
        bus.receive(next) is Lagged ==> bus.advance(next) == bus.oldest() && bus.oldest() > next,
        (bus.receive(next) is Empty || bus.receive(next) is Closed) ==> bus.advance(next) == next,
{
}

/// Publishing gives the new event the next number and leaves every event
/// that stays retained under the number it had.
pub proof fn lemma_numbers_kept(bus: BroadcasterView, event: NotifyEventView, number: int)
    requires
        0 < bus.capacity,
        bus.retained.len() <= bus.capacity,
        bus.retained.len() <= bus.published < u64::MAX,
        bus.subscribers > 0,
        !bus.closed,
    ensures
        event_numbered(bus.publish(event), bus.published as int) == Some(event),
        number != bus.published && event_numbered(bus.publish(event), number) is Some
            ==> event_numbered(bus.publish(event), number) == event_numbered(bus, number),
{
}

/// The newest `capacity` items of a row, or all of it where it has fewer.
pub open spec fn newest<A>(row: Seq<A>, capacity: nat) -> Seq<A> {
    if row.len() <= capacity {
        row
    } else {
        row.skip(row.len() - capacity)
    }
}

/// Publishing a row of events to a bus with subscribers counts every one of
/// them, and retains the newest of what was retained and what was published.
pub proof fn lemma_publish_all(bus: BroadcasterView, events: Seq<NotifyEventView>)
    requires
        0 < bus.capacity,
        bus.retained.len() <= bus.capacity,
        bus.retained.len() <= bus.published,
        bus.published + events.len() <= u64::MAX,
        bus.subscribers > 0,
        !bus.closed,
    ensures
        bus.publish_all(events) == (BroadcasterView {
            published: bus.published + events.len(),
            retained: newest(bus.retained + events, bus.capacity),
            ..bus
        }),
    decreases events.len(),
{
    if events.len() == 0 {
        assert(bus.retained + events =~= bus.retained);
    } else {
        let front = events.drop_last();
        lemma_publish_all(bus, front);
        let before = bus.retained + front;
        assert(bus.retained + events =~= before.push(events.last()));
        assert(bus.publish_all(events).retained =~= newest(
            bus.retained + events,
            bus.capacity,
        ));
    }
}

/// A subscriber that has received all there was receives the events that
/// are published after that, each once and in the order of publication, as
/// long as no more of them are published than the bus retains.
pub proof fn lemma_published_in_order(
    bus: BroadcasterView,
    events: Seq<NotifyEventView>,
    position: int,
)
    requires
        0 < bus.capacity,
        bus.retained.len() <= bus.capacity,
        bus.retained.len() <= bus.published,
        bus.published + events.len() <= u64::MAX,
        bus.subscribers > 0,
        !bus.closed,
        events.len() <= bus.capacity,
        0 <= position < events.len(),
    ensures
        bus.publish_all(events).receive((bus.published + position) as u64) == ReceivedView::Event(
            events[position],
        ),
        bus.publish_all(events).advance((bus.published + position) as u64) == bus.published
            + position + 1,
        bus.publish_all(events).receive((bus.published + events.len()) as u64)
            == ReceivedView::Empty,
{
    lemma_publish_all(bus, events);
}

/// A subscriber that attaches to a bus on which events were published while
/// nobody was subscribed finds none of them: the first event that it
/// receives is the first that is published after it attached, no lag is
/// reported to it, and after that event nothing is waiting.
pub proof fn lemma_late_subscriber(
    bus: BroadcasterView,
    unheard: Seq<NotifyEventView>,
    event: NotifyEventView,
)
    requires
        0 < bus.capacity,
        bus.retained.len() <= bus.capacity,
        bus.retained.len() <= bus.published < u64::MAX,
        bus.subscribers == 0,
        !bus.closed,
    ensures
        ({
            let attached = BroadcasterView { subscribers: 1, ..bus.publish_all(unheard) };
            let cursor = attached.published as u64;
            &&& cursor == bus.published
            &&& attached.receive(cursor) == ReceivedView::Empty
            &&& attached.publish(event).receive(cursor) == ReceivedView::Event(event)
            &&& attached.publish(event).advance(cursor) == cursor + 1
            &&& attached.publish(event).receive((cursor + 1) as u64) == ReceivedView::Empty
        }),
{
    lemma_publish_without_subscribers(bus, unheard);
}

} // verus!

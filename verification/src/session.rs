//! One subscriber's connection, as a state machine: `Connecting`, then
//! `Authorizing`, then `Open`, then `Closed`. The transport and its waiting
//! are the caller's; what to do with each thing that happens is decided here.

use crate::auth::{notify_guard, verify_ws_token};
use crate::broadcaster::{
    lemma_lag_then_resume, lemma_late_subscriber, lemma_published_in_order, Broadcaster,
    BroadcasterView, Received, ReceivedView, Subscription,
};
use crate::codec::{TokenClaims, TokenClaimsView, TokenCodec};
use crate::db::token_ops::{touched, TokenStore};
use crate::error::{AppError, AppErrorView};
use crate::hashing::{generate_token_hash, token_hash};
use crate::model::{NotifyEvent, NotifyEventView};
use vstd::prelude::*;

verus! {

/// Where a connection stands.
#[derive(Debug, Clone, Copy, PartialEq, Eq, Structural)]
pub enum SessionState {
    /// The upgrade has been asked for; nothing is known of the caller.
    Connecting,
    /// The bearer token has been read from the upgrade request.
    Authorizing,
    /// The caller is authorized and subscribed; events are forwarded.
    Open,
    /// The end. A new connection has to start over.
    Closed,
}

/// The parameters of an upgrade request.
#[derive(Debug, Clone, PartialEq, Eq)]
pub struct WsQuery {
    pub token: String,
}

/// What was read from the transport. What a client sends is not acted upon:
/// reading serves only to notice that the connection is over.
#[derive(Debug, Clone, Copy, PartialEq, Eq, Structural)]
pub enum TransportEvent {
    /// A message of any kind but a close.
    Message,
    /// The client closed the connection.
    Close,
    /// Reading failed.
    Error,
    /// The stream of messages ended.
    EndOfStream,
}

/// What the caller is to do next.
#[derive(Debug, Clone, PartialEq, Eq)]
pub enum SessionAction {
    /// Nothing is waiting: wait for the transport or for the next event.
    Wait,
    /// Send this event to the client.
    Forward(NotifyEvent),
    /// Log that the subscriber fell behind by this many events, and go on.
    ReportLag(u64),
    /// The session is over: stop.
    Stop,
}

/// `SessionAction` over sequences of characters.
pub enum SessionActionView {
    Wait,
    Forward(NotifyEventView),
    ReportLag(u64),
    Stop,
}

impl View for SessionAction {
    type V = SessionActionView;

    open spec fn view(&self) -> SessionActionView {
        match self {
            SessionAction::Wait => SessionActionView::Wait,
            SessionAction::Forward(event) => SessionActionView::Forward(event@),
            SessionAction::ReportLag(count) => SessionActionView::ReportLag(*count),
            SessionAction::Stop => SessionActionView::Stop,
        }
    }
}

/// The state of a session.
pub struct SessionView {
    pub state: SessionState,
    /// The bearer token of the upgrade request, from `Authorizing` on.
    pub token: Option<Seq<char>>,
    /// The place in the row of published events, while `Open`.
    pub cursor: Option<u64>,
}

/// The action that stands for what a subscriber received.
pub open spec fn action_for(received: ReceivedView) -> SessionActionView {
    match received {
        ReceivedView::Event(event) => SessionActionView::Forward(event),
        ReceivedView::Lagged(count) => SessionActionView::ReportLag(count),
        ReceivedView::Empty => SessionActionView::Wait,
        ReceivedView::Closed => SessionActionView::Stop,
    }
}

/// Whether a transport event ends the session.
pub open spec fn ends_session(event: TransportEvent) -> bool {
    event != TransportEvent::Message
}

/// The broadcaster with one subscriber less.
pub open spec fn released(bus: BroadcasterView) -> BroadcasterView {
    BroadcasterView {
        subscribers: if bus.subscribers > 0 {
            (bus.subscribers - 1) as nat
        } else {
            0
        },
        ..bus
    }
}

/// One subscriber's connection.
pub struct ConnectionSession {
    state: SessionState,
    token: Option<String>,
    subscription: Option<Subscription>,
}

impl View for ConnectionSession {
    type V = SessionView;

    closed spec fn view(&self) -> SessionView {
        SessionView {
            state: self.state,
            token: match self.token {
                Some(token) => Some(token@),
                None => None,
            },
            cursor: match self.subscription {
                Some(subscription) => Some(subscription.next()),
                None => None,
            },
        }
    }
}

impl ConnectionSession {
    /// A session holds a subscription exactly while it is open, and a token
    /// while it is authorizing.
    pub open spec fn wf(&self) -> bool {
        &&& self@.state == SessionState::Open <==> self@.cursor is Some
        &&& self@.state == SessionState::Authorizing ==> self@.token is Some
    }

    /// A session for an upgrade that has just been asked for.
    pub fn new() -> (session: ConnectionSession)
        ensures
            session.wf(),
            session@ == (SessionView {
                state: SessionState::Connecting,
                token: None,
                cursor: None,
            }),
    {
        ConnectionSession { state: SessionState::Connecting, token: None, subscription: None }
    }

    /// Where the session stands.
    pub fn state(&self) -> (state: SessionState)
        ensures
            state == self@.state,
    {
        self.state
    }

    /// Takes the bearer token from the parameters of the upgrade request,
    /// not from the stream of messages. A request without the parameter is
    /// turned away.
    pub fn begin(&mut self, query: Option<WsQuery>)
        requires
            old(self).wf(),
        ensures
            final(self).wf(),
            final(self)@ == if old(self)@.state == SessionState::Connecting {
                match query {
                    Some(parameters) => SessionView {
                        state: SessionState::Authorizing,
                        token: Some(parameters.token@),
                        cursor: None,
                    },
                    None => SessionView { state: SessionState::Closed, ..old(self)@ },
                }
            } else {
                old(self)@
            },
    {
        match self.state {
            SessionState::Connecting => {
                match query {
                    Some(parameters) => {
                        self.state = SessionState::Authorizing;
                        self.token = Some(parameters.token);
                    },
                    None => {
                        self.state = SessionState::Closed;
                    },
                }
            },
            _ => {},
        }
    }

    /// The handshake, for a session that is authorizing; any other session
    /// is left as it is. The token must pass the two-factor check for notify
    /// tokens at `now`. Where it passes, the session subscribes, stamps the
    /// token as used, once, and is open. Where it does not, the handshake
    /// fails: the session is closed without ever having been open, and
    /// store and broadcaster stay as they were.
    pub fn authorize(
        &mut self,
        codec: &TokenCodec,
        store: &mut TokenStore,
        bus: &mut Broadcaster,
        now: i64,
    ) -> (result: Result<TokenClaims, AppError>)
        requires
            old(self).wf(),
            old(store).wf(),
            old(bus).wf(),
        ensures
            final(self).wf(),
            final(store).wf(),
            final(bus).wf(),
            final(self)@.token == old(self)@.token,
            final(store).next_key() == old(store).next_key(),
            old(self)@.state != SessionState::Authorizing ==> {
                &&& result matches Err(error)
                &&& error@ == AppErrorView::AuthError("Connection is not authorizing"@)
                &&& final(self)@ == old(self)@
                &&& final(bus)@ == old(bus)@
                &&& final(store)@ == old(store)@
            },
            old(self)@.state == SessionState::Authorizing ==> match result {
                Ok(claims) => {
                    &&& notify_guard(codec.key(), old(store)@, old(self)@.token->0, now) == Ok::<
                        TokenClaimsView,
                        AppErrorView,
                    >(claims@)
                    &&& old(bus)@.subscribers < usize::MAX
                    &&& final(self)@.state == SessionState::Open
                    &&& final(self)@.cursor == Some(old(bus)@.published as u64)
                    &&& final(bus)@ == (BroadcasterView {
                        subscribers: old(bus)@.subscribers + 1,
                        ..old(bus)@
                    })
                    &&& final(store)@ == touched(
                        old(store)@,
                        token_hash(old(self)@.token->0),
                        now,
                    )
                },
                Err(error) => {
                    &&& final(self)@.state == SessionState::Closed
                    &&& final(self)@.cursor is None
                    &&& final(bus)@ == old(bus)@
                    &&& final(store)@ == old(store)@
                    &&& match notify_guard(codec.key(), old(store)@, old(self)@.token->0, now) {
                        Err(refusal) => error@ == refusal,
                        Ok(_) => old(bus)@.subscribers == usize::MAX && error@
                            == AppErrorView::DatabaseError("Too many subscribers"@),
                    }
                },
            },
    {
        match self.state {
            SessionState::Authorizing => {},
            _ => {
                return Err(AppError::AuthError(String::from_str("Connection is not authorizing")));
            },
        }
        let token = match &self.token {
            Some(token) => token.clone(),
            None => String::new(),
        };
        let claims = match verify_ws_token(codec, store, token.as_str(), now) {
            Ok(claims) => claims,
            Err(error) => {
                self.state = SessionState::Closed;
                return Err(error);
            },
        };
        match bus.subscribe() {
            Some(subscription) => {
                let digest = generate_token_hash(token.as_str());
                store.touch_last_used(digest.as_str(), now);
                self.subscription = Some(subscription);
                self.state = SessionState::Open;
                Ok(claims)
            },
            None => {
                self.state = SessionState::Closed;
                Err(AppError::DatabaseError(String::from_str("Too many subscribers")))
            },
        }
    }

    /// Reacts to what was read from the transport. A close, an error or the
    /// end of the stream closes an open session and releases its
    /// subscription; any other message changes nothing.
    pub fn on_transport(&mut self, bus: &mut Broadcaster, event: TransportEvent) -> (action:
        SessionAction)
        requires
            old(self).wf(),
            old(bus).wf(),
        ensures
            final(self).wf(),
            final(bus).wf(),
            final(self)@.token == old(self)@.token,
            if old(self)@.state == SessionState::Open {
                if ends_session(event) {
                    &&& final(self)@.state == SessionState::Closed
                    &&& final(self)@.cursor is None
                    &&& final(bus)@ == released(old(bus)@)
                    &&& action@ == SessionActionView::Stop
                } else {
                    &&& final(self)@ == old(self)@
                    &&& final(bus)@ == old(bus)@
                    &&& action@ == SessionActionView::Wait
                }
            } else {
                &&& final(self)@ == old(self)@
                &&& final(bus)@ == old(bus)@
                &&& action@ == SessionActionView::Stop
            },
    {
        match self.state {
            SessionState::Open => {
                match event {
                    TransportEvent::Message => SessionAction::Wait,
                    _ => {
                        self.release(bus);
                        SessionAction::Stop
                    },
                }
            },
            _ => SessionAction::Stop,
        }
    }

    /// Takes the next event from the subscription, without waiting. An event
    /// is to be forwarded; a lag is to be logged, and the session goes on; a
    /// closed broadcaster closes the session.
    pub fn on_broadcast(&mut self, bus: &mut Broadcaster) -> (action: SessionAction)
        requires
            old(self).wf(),
            old(bus).wf(),
        ensures
            final(self).wf(),
            final(bus).wf(),
            final(self)@.token == old(self)@.token,
            match old(self)@.cursor {
                Some(next) => {
                    &&& action@ == action_for(old(bus)@.receive(next))
                    &&& if old(bus)@.receive(next) is Closed {
                        &&& final(self)@.state == SessionState::Closed
                        &&& final(self)@.cursor is None
                        &&& final(bus)@ == released(old(bus)@)
                    } else {
                        &&& final(self)@.state == SessionState::Open
                        &&& final(self)@.cursor == Some(old(bus)@.advance(next))
                        &&& final(bus)@ == old(bus)@
                    }
                },
                None => {
                    &&& action@ == SessionActionView::Stop
                    &&& final(self)@ == old(self)@
                    &&& final(bus)@ == old(bus)@
                },
            },
    {
        let mut subscription = match self.subscription.take() {
            Some(subscription) => subscription,
            None => {
                return SessionAction::Stop;
            },
        };
        match bus.try_recv(&mut subscription) {
            Received::Event(event) => {
                self.subscription = Some(subscription);
                SessionAction::Forward(event)
            },
            Received::Lagged(count) => {
                self.subscription = Some(subscription);
                SessionAction::ReportLag(count)
            },
            Received::Empty => {
                self.subscription = Some(subscription);
                SessionAction::Wait
            },
            Received::Closed => {
                bus.unsubscribe(subscription);
                self.state = SessionState::Closed;
                SessionAction::Stop
            },
        }
    }

    /// Reacts to the outcome of sending an event to the client: a failed
    /// write closes an open session and releases its subscription.
    pub fn on_write(&mut self, bus: &mut Broadcaster, delivered: bool) -> (action: SessionAction)
        requires
            old(self).wf(),
            old(bus).wf(),
        ensures
            final(self).wf(),
            final(bus).wf(),
            final(self)@.token == old(self)@.token,
            if old(self)@.state == SessionState::Open {
                if delivered {
                    &&& final(self)@ == old(self)@
                    &&& final(bus)@ == old(bus)@
                    &&& action@ == SessionActionView::Wait
                } else {
                    &&& final(self)@.state == SessionState::Closed
                    &&& final(self)@.cursor is None
                    &&& final(bus)@ == released(old(bus)@)
                    &&& action@ == SessionActionView::Stop
                }
            } else {
                &&& final(self)@ == old(self)@
                &&& final(bus)@ == old(bus)@
                &&& action@ == SessionActionView::Stop
            },
    {
        match self.state {
            SessionState::Open => {
                if delivered {
                    SessionAction::Wait
                } else {
                    self.release(bus);
                    SessionAction::Stop
                }
            },
            _ => SessionAction::Stop,
        }
    }

    /// Closes an open session and hands its subscription back.
    fn release(&mut self, bus: &mut Broadcaster)
        requires
            old(self).wf(),
            old(self)@.state == SessionState::Open,
            old(bus).wf(),
        ensures
            final(self).wf(),
            final(bus).wf(),
            final(self)@.state == SessionState::Closed,
            final(self)@.cursor is None,
            final(self)@.token == old(self)@.token,
            final(bus)@ == released(old(bus)@),
    {
        match self.subscription.take() {
            Some(subscription) => {
                bus.unsubscribe(subscription);
            },
            None => {},
        }
        self.state = SessionState::Closed;
    }
}

/// A session that opens after events were published to nobody forwards none
/// of them and is told of no lag: the first thing it is to forward is the
/// first event published after it opened, and after that it is to wait.
pub proof fn lemma_first_forward(
    bus: BroadcasterView,
    unheard: Seq<NotifyEventView>,
    event: NotifyEventView,
)
    requires
        0 < bus.capacity,
        bus.retained.len() <= bus.capacity,
        bus.retained.len() <= bus.published < u64::MAX,
        bus.subscribers == 0,
        !bus.closed,
    ensures
        ({
            let opened = BroadcasterView { subscribers: 1, ..bus.publish_all(unheard) };
            let cursor = opened.published as u64;
            &&& action_for(opened.receive(cursor)) == SessionActionView::Wait
            &&& action_for(opened.publish(event).receive(cursor)) == SessionActionView::Forward(
                event,
            )
            &&& action_for(
                opened.publish(event).receive(opened.publish(event).advance(cursor)),
            ) == SessionActionView::Wait
        }),
{
    lemma_late_subscriber(bus, unheard, event);
}

/// A session that fell behind is to log the lag, once, and goes on: the bus
/// is not closed to it, nothing is to be forwarded for the notice itself,
/// and what it is to forward next is the oldest event that is retained,
/// then the others in their order; the events that it lost never come.
pub proof fn lemma_lag_is_logged_and_passed(bus: BroadcasterView, next: u64, step: int)
    requires
        bus.retained.len() <= bus.published <= u64::MAX,
        next < bus.oldest(),
        0 <= step < bus.retained.len(),
    ensures
        action_for(bus.receive(next)) == SessionActionView::ReportLag((bus.oldest() - next) as u64),
        !(bus.receive(next) is Closed),
        bus.advance(next) == bus.oldest(),
        action_for(bus.receive((bus.oldest() + step) as u64)) == SessionActionView::Forward(
            bus.retained[step],
        ),
        bus.advance((bus.oldest() + step) as u64) == bus.oldest() + step + 1,
{
    lemma_lag_then_resume(bus, next, step);
}

/// A session that has forwarded all there was forwards the events that are
/// published after that, each once and in the order of publication, and is
/// then to wait, as long as no more of them are published than the bus
/// retains.
pub proof fn lemma_forwards_in_order(
    bus: BroadcasterView,
    events: Seq<NotifyEventView>,
    position: int,
)
    requires
        0 < bus.capacity,
        bus.retained.len() <= bus.capacity,
        bus.retained.len() <= bus.published,
        bus.published + events.len() <= u64::MAX,
        bus.subscribers > 0,
        !bus.closed,
        events.len() <= bus.capacity,
        0 <= position < events.len(),
    ensures
        action_for(bus.publish_all(events).receive((bus.published + position) as u64))
            == SessionActionView::Forward(events[position]),
        bus.publish_all(events).advance((bus.published + position) as u64) == bus.published
            + position + 1,
        action_for(bus.publish_all(events).receive((bus.published + events.len()) as u64))
            == SessionActionView::Wait,
{
    lemma_published_in_order(bus, events, position);
}

} // verus!

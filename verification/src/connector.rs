//! The feed connector: what a connection to one exchange does next, decided from
//! where it stands and from what just happened.
//!
//! The connector itself performs nothing. A driver opens the connection, reads the
//! frames, asks the store and waits; it reports each outcome as a `ConnectorEvent`
//! and carries out the `ConnectorAction` that `FeedConnector::step` answers with.

use vstd::prelude::*;
use vstd::string::*;
use crate::dedup::{CacheReply, Reply, DEDUP_TTL_SECONDS};
use crate::ws_message::{key_of, Tick, WsMessage};

verus! {

/// For how many seconds a connector waits before it connects again.
pub const RECONNECT_DELAY_SECONDS: u64 = 5;

/// Where a connector stands.
#[derive(Clone, Debug, PartialEq, Eq)]
pub enum ConnectorState {
    /// Nothing has happened yet: the store is being opened.
    Starting,
    /// A connection to the endpoint is being opened.
    Connecting,
    /// The subscription message is being sent.
    Subscribing,
    /// The next frame is being read.
    Streaming,
    /// The store is being asked whether the price of this tick is new.
    Checking(WsMessage),
    /// The connection is closed and the delay before the next one runs.
    Waiting,
    /// The connector has given up for good.
    Stopped,
}

/// What a driver reports to a connector.
#[derive(Clone, Debug, PartialEq, Eq)]
pub enum ConnectorEvent {
    /// The store can be reached.
    StoreReady,
    /// The store cannot be reached.
    StoreUnreachable,
    /// The connection is open.
    Connected,
    /// The connection could not be opened.
    ConnectFailed,
    /// The subscription message is sent.
    Subscribed,
    /// The subscription message could not be sent.
    SubscribeFailed,
    /// A text frame arrived and held this tick.
    Tick(WsMessage),
    /// A text frame arrived that is well formed and holds no tick.
    Skipped,
    /// A text frame arrived that could not be decoded.
    Malformed,
    /// A close frame arrived.
    Closed,
    /// A frame of another kind arrived.
    Other,
    /// The stream ended or could not be read.
    StreamEnded,
    /// The store answered the conditional set.
    CacheReplied(CacheReply),
    /// The delay has run.
    DelayElapsed,
}

/// What a connector asks its driver to do. Unless said otherwise, the driver reports
/// the outcome as the next event.
#[derive(Clone, Debug, PartialEq, Eq)]
pub enum ConnectorAction {
    /// Open the store.
    OpenStore,
    /// Open a connection to this endpoint.
    Connect(String),
    /// Send this subscription message.
    Subscribe(String),
    /// Read the next frame.
    ReadFrame,
    /// Set `key` to `value` for `ttl` seconds if the store holds no live entry for it.
    CheckAndSet { key: String, value: String, ttl: u64 },
    /// Hand this tick to the hub, whether or not anyone listens, and then read the
    /// next frame.
    Publish(WsMessage),
    /// Close the connection, if one is open, and wait this many seconds.
    Reconnect(u64),
    /// Stop for good and report the failure.
    Abort,
}

/// A `ConnectorState` over `Tick`.
pub enum StateView {
    Starting,
    Connecting,
    Subscribing,
    Streaming,
    Checking(Tick),
    Waiting,
    Stopped,
}

/// A `ConnectorEvent` over `Tick` and `Reply`.
pub enum EventView {
    StoreReady,
    StoreUnreachable,
    Connected,
    ConnectFailed,
    Subscribed,
    SubscribeFailed,
    Tick(Tick),
    Skipped,
    Malformed,
    Closed,
    Other,
    StreamEnded,
    CacheReplied(Reply),
    DelayElapsed,
}

/// A `ConnectorAction` over `Tick` and sequences of characters.
pub enum ActionView {
    OpenStore,
    Connect(Seq<char>),
    Subscribe(Seq<char>),
    ReadFrame,
    CheckAndSet { key: Seq<char>, value: Seq<char>, ttl: nat },
    Publish(Tick),
    Reconnect(nat),
    Abort,
}

impl View for ConnectorState {
    type V = StateView;

    open spec fn view(&self) -> StateView {
        match self {
            ConnectorState::Starting => StateView::Starting,
            ConnectorState::Connecting => StateView::Connecting,
            ConnectorState::Subscribing => StateView::Subscribing,
            ConnectorState::Streaming => StateView::Streaming,
            ConnectorState::Checking(tick) => StateView::Checking(tick@),
            ConnectorState::Waiting => StateView::Waiting,
            ConnectorState::Stopped => StateView::Stopped,
        }
    }
}

impl View for ConnectorEvent {
    type V = EventView;

    open spec fn view(&self) -> EventView {
        match self {
            ConnectorEvent::StoreReady => EventView::StoreReady,
            ConnectorEvent::StoreUnreachable => EventView::StoreUnreachable,
            ConnectorEvent::Connected => EventView::Connected,
            ConnectorEvent::ConnectFailed => EventView::ConnectFailed,
            ConnectorEvent::Subscribed => EventView::Subscribed,
            ConnectorEvent::SubscribeFailed => EventView::SubscribeFailed,
            ConnectorEvent::Tick(tick) => EventView::Tick(tick@),
            ConnectorEvent::Skipped => EventView::Skipped,
            ConnectorEvent::Malformed => EventView::Malformed,
            ConnectorEvent::Closed => EventView::Closed,
            ConnectorEvent::Other => EventView::Other,
            ConnectorEvent::StreamEnded => EventView::StreamEnded,
            ConnectorEvent::CacheReplied(reply) => EventView::CacheReplied(reply@),
            ConnectorEvent::DelayElapsed => EventView::DelayElapsed,
        }
    }
}

impl View for ConnectorAction {
    type V = ActionView;

    open spec fn view(&self) -> ActionView {
        match self {
            ConnectorAction::OpenStore => ActionView::OpenStore,
            ConnectorAction::Connect(endpoint) => ActionView::Connect(endpoint@),
            ConnectorAction::Subscribe(message) => ActionView::Subscribe(message@),
            ConnectorAction::ReadFrame => ActionView::ReadFrame,
            ConnectorAction::CheckAndSet { key, value, ttl } => ActionView::CheckAndSet {
                key: key@,
                value: value@,
                ttl: *ttl as nat,
            },
            ConnectorAction::Publish(tick) => ActionView::Publish(tick@),
            ConnectorAction::Reconnect(seconds) => ActionView::Reconnect(*seconds as nat),
            ConnectorAction::Abort => ActionView::Abort,
        }
    }
}

/// A connector to one exchange endpoint.
#[derive(Clone, Debug, PartialEq, Eq)]
pub struct FeedConnector {
    endpoint: String,
    subscription: Option<String>,
    state: ConnectorState,
}

/// What a `FeedConnector` holds.
pub struct ConnectorView {
    /// Where it connects to.
    pub endpoint: Seq<char>,
    /// What it sends once connected, if anything.
    pub subscription: Option<Seq<char>>,
    pub state: StateView,
}

/// The closing of the connection and the wait that every failure leads to.
pub open spec fn reconnect() -> (StateView, ActionView) {
    (StateView::Waiting, ActionView::Reconnect(RECONNECT_DELAY_SECONDS as nat))
}

/// The state that follows, and the action that is asked for, when connector `c`
/// learns of `event`.
///
/// A tick is checked against the store and published only if the store held no
/// live entry for its key; a store that fails publishes nothing. A frame that
/// cannot be decoded, a close frame, the end of the stream and every failure to
/// connect or subscribe close the connection and lead, after the delay, to a new
/// one. So does an event that the state does not expect, except at the start, where
/// the store is asked for again. Only a store that cannot be reached at the start
/// stops the connector.
pub open spec fn next(c: ConnectorView, event: EventView) -> (StateView, ActionView) {
    match (c.state, event) {
        (StateView::Stopped, _) => (StateView::Stopped, ActionView::Abort),
        (StateView::Starting, EventView::StoreReady) => (
            StateView::Connecting,
            ActionView::Connect(c.endpoint),
        ),
        (StateView::Starting, EventView::StoreUnreachable) => (
            StateView::Stopped,
            ActionView::Abort,
        ),
        (StateView::Starting, _) => (StateView::Starting, ActionView::OpenStore),
        (StateView::Connecting, EventView::Connected) => match c.subscription {
            Some(message) => (StateView::Subscribing, ActionView::Subscribe(message)),
            None => (StateView::Streaming, ActionView::ReadFrame),
        },
        (StateView::Subscribing, EventView::Subscribed) => (
            StateView::Streaming,
            ActionView::ReadFrame,
        ),
        (StateView::Streaming, EventView::Tick(tick)) => (
            StateView::Checking(tick),
            ActionView::CheckAndSet {
                key: key_of(tick),
                value: tick.price,
                ttl: DEDUP_TTL_SECONDS as nat,
            },
        ),
        (StateView::Streaming, EventView::Skipped) => (StateView::Streaming, ActionView::ReadFrame),
        (StateView::Streaming, EventView::Other) => (StateView::Streaming, ActionView::ReadFrame),
        (StateView::Checking(tick), EventView::CacheReplied(Reply::Absent)) => (
            StateView::Streaming,
            ActionView::Publish(tick),
        ),
        (StateView::Checking(_), EventView::CacheReplied(_)) => (
            StateView::Streaming,
            ActionView::ReadFrame,
        ),
        (StateView::Waiting, EventView::DelayElapsed) => (
            StateView::Connecting,
            ActionView::Connect(c.endpoint),
        ),
        _ => reconnect(),
    }
}

/// A frame that cannot be decoded closes the connection, and once the delay has run
/// the connector connects again to the same endpoint: it does not stop.
pub proof fn lemma_decode_failure_reconnects(c: ConnectorView)
    requires
        c.state == StateView::Streaming,
    ensures
        next(c, EventView::Malformed) == reconnect(),
        next(
            ConnectorView {
                endpoint: c.endpoint,
                subscription: c.subscription,
                state: next(c, EventView::Malformed).0,
            },
            EventView::DelayElapsed,
        ) == (StateView::Connecting, ActionView::Connect(c.endpoint)),
{
}

/// A connector gives up only where the store cannot be reached at the start, and
/// stays stopped from then on. Whatever else happens, it goes on.
pub proof fn lemma_stops_only_at_start(c: ConnectorView, event: EventView)
    ensures
        next(c, event).1 == ActionView::Abort <==> next(c, event).0 == StateView::Stopped,
        next(c, event).0 == StateView::Stopped <==> c.state == StateView::Stopped || (c.state
            == StateView::Starting && event == EventView::StoreUnreachable),
{
}

/// A tick is published only in answer to a store that held no live entry, and it is
/// the tick that was checked that is published.
pub proof fn lemma_publishes_only_first_seen(c: ConnectorView, event: EventView, tick: Tick)
    ensures
        next(c, event).1 == ActionView::Publish(tick) <==> c.state == StateView::Checking(tick)
            && event == EventView::CacheReplied(Reply::Absent),
{
}

impl View for FeedConnector {
    type V = ConnectorView;

    closed spec fn view(&self) -> ConnectorView {
        ConnectorView {
            endpoint: self.endpoint@,
            subscription: match self.subscription {
                Some(message) => Some(message@),
                None => None,
            },
            state: self.state@,
        }
    }
}

impl FeedConnector {
    /// A connector to `endpoint` that has not started yet. Once connected it sends
    /// `subscription`, if there is one, before it reads.
    pub fn new(endpoint: String, subscription: Option<String>) -> (r: FeedConnector)
        ensures
            r@ == (ConnectorView {
                endpoint: endpoint@,
                subscription: match subscription {
                    Some(message) => Some(message@),
                    None => None,
                },
                state: StateView::Starting,
            }),
    {
        FeedConnector { endpoint, subscription, state: ConnectorState::Starting }
    }

    /// What the driver does first: the outcome is the first event.
    pub fn first_action(&self) -> (r: ConnectorAction)
        ensures
            r@ == ActionView::OpenStore,
    {
        ConnectorAction::OpenStore
    }

    /// Where the connector stands.
    pub fn state(&self) -> (r: &ConnectorState)
        ensures
            r@ == self@.state,
    {
        &self.state
    }

    /// Whether the connector has given up for good.
    pub fn is_stopped(&self) -> (r: bool)
        ensures
            r == (self@.state == StateView::Stopped),
    {
        match self.state {
            ConnectorState::Stopped => true,
            _ => false,
        }
    }

    fn fail(&mut self) -> (r: ConnectorAction)
        ensures
            final(self).endpoint == old(self).endpoint,
            final(self).subscription == old(self).subscription,
            (final(self).state@, r@) == reconnect(),
    {
        self.state = ConnectorState::Waiting;
        ConnectorAction::Reconnect(RECONNECT_DELAY_SECONDS)
    }

    /// Takes in `event` and answers with what the driver does next.
    pub fn step(&mut self, event: ConnectorEvent) -> (r: ConnectorAction)
        ensures
            final(self)@.endpoint == old(self)@.endpoint,
            final(self)@.subscription == old(self)@.subscription,
            (final(self)@.state, r@) == next(old(self)@, event@),
    {
        let mut state = ConnectorState::Waiting;
        core::mem::swap(&mut self.state, &mut state);
        match state {
            ConnectorState::Stopped => {
                self.state = ConnectorState::Stopped;
                ConnectorAction::Abort
            },
            ConnectorState::Starting => match event {
                ConnectorEvent::StoreReady => {
                    self.state = ConnectorState::Connecting;
                    ConnectorAction::Connect(self.endpoint.clone())
                },
                ConnectorEvent::StoreUnreachable => {
                    self.state = ConnectorState::Stopped;
                    ConnectorAction::Abort
                },
                _ => {
                    self.state = ConnectorState::Starting;
                    ConnectorAction::OpenStore
                },
            },
            ConnectorState::Connecting => match event {
                ConnectorEvent::Connected => match &self.subscription {
                    Some(message) => {
                        let message = message.clone();
                        self.state = ConnectorState::Subscribing;
                        ConnectorAction::Subscribe(message)
                    },
                    None => {
                        self.state = ConnectorState::Streaming;
                        ConnectorAction::ReadFrame
                    },
                },
                _ => self.fail(),
            },
            ConnectorState::Subscribing => match event {
                ConnectorEvent::Subscribed => {
                    self.state = ConnectorState::Streaming;
                    ConnectorAction::ReadFrame
                },
                _ => self.fail(),
            },
            ConnectorState::Streaming => match event {
                ConnectorEvent::Tick(tick) => {
                    let key = tick.get_key();
                    let value = String::from_str(tick.price());
                    self.state = ConnectorState::Checking(tick);
                    ConnectorAction::CheckAndSet { key, value, ttl: DEDUP_TTL_SECONDS }
                },
                ConnectorEvent::Skipped => {
                    self.state = ConnectorState::Streaming;
                    ConnectorAction::ReadFrame
                },
                ConnectorEvent::Other => {
                    self.state = ConnectorState::Streaming;
                    ConnectorAction::ReadFrame
                },
                _ => self.fail(),
            },
            ConnectorState::Checking(tick) => match event {
                ConnectorEvent::CacheReplied(reply) => {
                    self.state = ConnectorState::Streaming;
                    match reply {
                        CacheReply::Absent => ConnectorAction::Publish(tick),
                        _ => ConnectorAction::ReadFrame,
                    }
                },
                _ => self.fail(),
            },
            ConnectorState::Waiting => match event {
                ConnectorEvent::DelayElapsed => {
                    self.state = ConnectorState::Connecting;
                    ConnectorAction::Connect(self.endpoint.clone())
                },
                _ => self.fail(),
            },
        }
    }
}

} // verus!

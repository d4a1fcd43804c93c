//! The ingestion path as a whole: what a connector and a store do together with
//! the ticks that arrive, and the laws of de-duplication that follow.

use vstd::prelude::*;
use crate::connector::{
    next, ActionView, ConnectorAction, ConnectorEvent, ConnectorView, EventView, FeedConnector,
    StateView,
};
use crate::dedup::{live, set_reply, set_store, DedupCache, Entry, DEDUP_TTL_SECONDS};
use crate::lookup::{lemma_lookup_key_is_tick_key, lookup_key_of, step_after_cache, StepView};
use crate::text::uppercase;
use crate::ws_message::{key_of, Source, Tick, WsMessage};

verus! {

/// Connector `c` with its state replaced by `state`.
pub open spec fn in_state(c: ConnectorView, state: StateView) -> ConnectorView {
    ConnectorView { endpoint: c.endpoint, subscription: c.subscription, state }
}

/// What has happened once a tick has arrived.
pub struct Ingestion {
    /// Where the connector stands afterwards.
    pub state: StateView,
    /// What the store holds afterwards.
    pub store: Map<Seq<char>, Entry>,
    /// The tick that was published, if one was.
    pub published: Option<Tick>,
}

/// What happens when `tick` arrives at `now` at connector `c`, and the store that
/// the connector asks is `store`. A connector that does not read its stream takes
/// the tick for an event that it does not expect, and the store is not asked.
pub open spec fn ingested(c: ConnectorView, store: Map<Seq<char>, Entry>, tick: Tick, now: nat) -> Ingestion {
    let asked = next(c, EventView::Tick(tick));
    match asked.1 {
        ActionView::CheckAndSet { key, value, ttl } => {
            let answered = next(
                in_state(c, asked.0),
                EventView::CacheReplied(set_reply(store, key, now)),
            );
            Ingestion {
                state: answered.0,
                store: set_store(store, key, value, now, ttl),
                published: match answered.1 {
                    ActionView::Publish(published) => Some(published),
                    _ => None,
                },
            }
        },
        _ => Ingestion { state: asked.0, store, published: None },
    }
}

/// The tick that `published` holds, as a `Tick`.
pub open spec fn published_view(published: Option<WsMessage>) -> Option<Tick> {
    match published {
        Some(tick) => Some(tick@),
        None => None,
    }
}

/// Lets `tick` arrive at `now` at `connector`, with a store in memory in the place
/// of the shared one, and gives back the tick to publish, if there is one.
pub fn ingest(
    connector: &mut FeedConnector,
    cache: &mut DedupCache,
    tick: WsMessage,
    now: u64,
) -> (published: Option<WsMessage>)
    requires
        now + DEDUP_TTL_SECONDS <= u64::MAX,
    ensures
        ({
            let outcome = ingested(old(connector)@, old(cache)@, tick@, now as nat);
            &&& final(connector)@ == in_state(old(connector)@, outcome.state)
            &&& final(cache)@ == outcome.store
            &&& published_view(published) == outcome.published
        }),
{
    match connector.step(ConnectorEvent::Tick(tick)) {
        ConnectorAction::CheckAndSet { key, value, ttl } => {
            let reply = cache.check_and_set(key.as_str(), value.as_str(), now, ttl);
            match connector.step(ConnectorEvent::CacheReplied(reply)) {
                ConnectorAction::Publish(tick) => Some(tick),
                _ => None,
            }
        },
        _ => None,
    }
}

/// A tick is published exactly where the store holds no live entry for its key, and
/// then it is the tick itself that is published, and the store remembers its price
/// for `DEDUP_TTL_SECONDS` seconds.
pub proof fn lemma_ingested(c: ConnectorView, store: Map<Seq<char>, Entry>, tick: Tick, now: nat)
    requires
        c.state == StateView::Streaming,
    ensures
        ingested(c, store, tick, now).state == StateView::Streaming,
        live(store, key_of(tick), now) ==> {
            &&& ingested(c, store, tick, now).store == store
            &&& ingested(c, store, tick, now).published is None
        },
        !live(store, key_of(tick), now) ==> {
            &&& ingested(c, store, tick, now).store == store.insert(
                key_of(tick),
                Entry { value: tick.price, expires_at: now + DEDUP_TTL_SECONDS as nat },
            )
            &&& ingested(c, store, tick, now).published == Some(tick)
        },
{
}

/// A connector that does not read its stream asks the store nothing and publishes
/// nothing when a tick arrives.
pub proof fn lemma_ingested_elsewhere(
    c: ConnectorView,
    store: Map<Seq<char>, Entry>,
    tick: Tick,
    now: nat,
)
    requires
        c.state != StateView::Streaming,
    ensures
        ingested(c, store, tick, now).store == store,
        ingested(c, store, tick, now).published is None,
        ingested(c, store, tick, now).state == next(c, EventView::Tick(tick)).0,
{
}

/// Of two ticks with the same source, pair and price that arrive less than
/// `DEDUP_TTL_SECONDS` seconds apart at a connector that reads its stream, with a
/// store that holds no live entry for them, exactly one is published: the first.
/// The store then holds their price under their key until the window of the first
/// has run.
pub proof fn lemma_equal_ticks_in_window_publish_once(
    c: ConnectorView,
    store: Map<Seq<char>, Entry>,
    tick: Tick,
    first: nat,
    second: nat,
)
    requires
        c.state == StateView::Streaming,
        first <= second < first + DEDUP_TTL_SECONDS,
        !live(store, key_of(tick), first),
    ensures
        ({
            let one = ingested(c, store, tick, first);
            let two = ingested(in_state(c, one.state), one.store, tick, second);
            &&& one.published == Some(tick)
            &&& two.published is None
            &&& two.store == one.store
            &&& two.store[key_of(tick)] == (Entry {
                value: tick.price,
                expires_at: first + DEDUP_TTL_SECONDS as nat,
            })
        }),
{
    lemma_ingested(c, store, tick, first);
    let one = ingested(c, store, tick, first);
    lemma_ingested(in_state(c, one.state), one.store, tick, second);
}

/// Of two ticks with the same key that arrive less than `DEDUP_TTL_SECONDS` seconds
/// apart, at most one is published, whatever the store held and whatever their
/// prices are: a price that differs from the one before is held back as well.
pub proof fn lemma_window_publishes_at_most_once(
    c: ConnectorView,
    store: Map<Seq<char>, Entry>,
    earlier: Tick,
    later: Tick,
    first: nat,
    second: nat,
)
    requires
        c.state == StateView::Streaming,
        first <= second < first + DEDUP_TTL_SECONDS,
        key_of(earlier) == key_of(later),
    ensures
        ({
            let one = ingested(c, store, earlier, first);
            let two = ingested(in_state(c, one.state), one.store, later, second);
            one.published is None || two.published is None
        }),
{
    lemma_ingested(c, store, earlier, first);
    let one = ingested(c, store, earlier, first);
    lemma_ingested(in_state(c, one.state), one.store, later, second);
}

/// Two ticks with the same key that arrive `DEDUP_TTL_SECONDS` seconds apart or
/// more at a connector that reads its stream, the first with a store that holds no
/// live entry for them, are both published, whether or not their prices differ.
pub proof fn lemma_ticks_past_window_publish_each(
    c: ConnectorView,
    store: Map<Seq<char>, Entry>,
    earlier: Tick,
    later: Tick,
    first: nat,
    second: nat,
)
    requires
        c.state == StateView::Streaming,
        first + DEDUP_TTL_SECONDS <= second,
        key_of(earlier) == key_of(later),
        !live(store, key_of(earlier), first),
    ensures
        ({
            let one = ingested(c, store, earlier, first);
            let two = ingested(in_state(c, one.state), one.store, later, second);
            &&& one.published == Some(earlier)
            &&& two.published == Some(later)
        }),
{
    lemma_ingested(c, store, earlier, first);
    let one = ingested(c, store, earlier, first);
    lemma_ingested(in_state(c, one.state), one.store, later, second);
}

/// A lookup that follows a published tick of Coinbase for its pair by less than
/// `DEDUP_TTL_SECONDS` seconds is answered from the store with the price of that
/// tick, without a fetch. Where the tick was held back, the lookup is answered with
/// the price that held it back for as long as that entry lives.
pub proof fn lemma_lookup_reads_what_the_connector_wrote(
    c: ConnectorView,
    store: Map<Seq<char>, Entry>,
    tick: Tick,
    base: Seq<char>,
    quote: Seq<char>,
    arrival: nat,
    now: nat,
)
    requires
        c.state == StateView::Streaming,
        tick.source == Source::Coinbase,
        tick.base == uppercase(base),
        tick.quote == uppercase(quote),
        arrival <= now < arrival + DEDUP_TTL_SECONDS,
    ensures
        ({
            let outcome = ingested(c, store, tick, arrival);
            let cached = set_reply(outcome.store, lookup_key_of(base, quote), now);
            &&& outcome.published is Some ==> step_after_cache(cached, base, quote)
                == StepView::Return(tick.price)
            &&& outcome.published is None && now < store[key_of(tick)].expires_at
                ==> step_after_cache(cached, base, quote) == StepView::Return(
                store[key_of(tick)].value,
            )
        }),
{
    lemma_ingested(c, store, tick, arrival);
    lemma_lookup_key_is_tick_key(tick, base, quote);
}

/// Ticks with different keys do not hold each other back: whether a tick is
/// published does not depend on whether a tick with another key arrived before it.
pub proof fn lemma_other_keys_do_not_interfere(
    c: ConnectorView,
    store: Map<Seq<char>, Entry>,
    tick: Tick,
    other: Tick,
    first: nat,
    second: nat,
)
    requires
        c.state == StateView::Streaming,
        key_of(tick) != key_of(other),
    ensures
        ({
            let before = ingested(c, store, other, first);
            ingested(in_state(c, before.state), before.store, tick, second).published
                == ingested(c, store, tick, second).published
        }),
{
    lemma_ingested(c, store, other, first);
    let before = ingested(c, store, other, first);
    lemma_ingested(in_state(c, before.state), before.store, tick, second);
    lemma_ingested(c, store, tick, second);
}

} // verus!

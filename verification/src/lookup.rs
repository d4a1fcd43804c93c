//! The price lookup: the remembered price of a pair where the store holds a live
//! one, and else the price that the exchange quotes on request.
//!
//! The store that is read is the one that the connectors write: a lookup reads the
//! entry that a tick of Coinbase, the exchange whose price endpoint it would ask,
//! leaves for the pair.
//!
//! Nothing here reads the store or the network. A caller reads the store under
//! `lookup_key`, hands the answer to `after_cache`, and only where that asks for it
//! fetches the address it names and hands the response to `after_fetch`. A price
//! that was fetched is never written to the store.

use vstd::prelude::*;
use vstd::string::*;
use crate::dedup::{live, set_reply, CacheReply, DedupCache, Entry, Reply};
use crate::text::{join_dash, to_uppercase, uppercase};
use crate::ws_message::{key_of, Source, Tick, TickerData};

verus! {

/// What came back for a request to an exchange.
#[derive(Clone, Debug, PartialEq, Eq)]
pub struct HttpReply<T> {
    /// Whether the status reports success.
    pub success: bool,
    /// The text of the body, if it could be read.
    pub body: Option<String>,
    /// The body decoded, if it has the expected shape.
    pub decoded: Option<T>,
}

/// Why a request to an exchange gave no value.
#[derive(Clone, Debug, PartialEq, Eq)]
pub enum FetchError {
    /// No response arrived.
    Unreachable,
    /// The status reports success, and the body could not be read.
    Unreadable,
    /// The status reports success, and the body has not the expected shape.
    Malformed,
    /// The status reports a failure; this is the body that came with it.
    Rejected(String),
    /// The status reports a failure, and the body could not be read.
    Unknown,
}

/// What to do once the store has answered.
#[derive(Clone, Debug, PartialEq, Eq)]
pub enum LookupStep {
    /// The lookup is over: this is the price.
    Return(String),
    /// Fetch the price from this address.
    Fetch(String),
}

/// A `LookupStep` over sequences of characters.
pub enum StepView {
    Return(Seq<char>),
    Fetch(Seq<char>),
}

impl View for LookupStep {
    type V = StepView;

    open spec fn view(&self) -> StepView {
        match self {
            LookupStep::Return(price) => StepView::Return(price@),
            LookupStep::Fetch(url) => StepView::Fetch(url@),
        }
    }
}

/// The key under which a lookup reads the store: the key of a tick of Coinbase, the
/// exchange whose price endpoint the lookup would ask, for the base and the quote in
/// upper case.
pub open spec fn lookup_key_of(base: Seq<char>, quote: Seq<char>) -> Seq<char> {
    key_of(
        Tick {
            source: Source::Coinbase,
            base: uppercase(base),
            quote: uppercase(quote),
            price: Seq::empty(),
        },
    )
}

/// The address at which Coinbase quotes the price of a pair.
pub open spec fn price_url_of(base: Seq<char>, quote: Seq<char>) -> Seq<char> {
    "https://api.coinbase.com/v2/prices/"@ + base + "-"@ + quote + "/buy"@
}

/// The value that a response stands for, or the reason why it stands for none. Only
/// a response with a success status, a readable body and a body of the expected
/// shape gives a value.
pub open spec fn interpreted<T>(reply: Option<HttpReply<T>>) -> Result<T, FetchError> {
    match reply {
        None => Err(FetchError::Unreachable),
        Some(reply) => if reply.success {
            match (reply.body, reply.decoded) {
                (None, _) => Err(FetchError::Unreadable),
                (Some(_), None) => Err(FetchError::Malformed),
                (Some(_), Some(value)) => Ok(value),
            }
        } else {
            match reply.body {
                Some(body) => Err(FetchError::Rejected(body)),
                None => Err(FetchError::Unknown),
            }
        },
    }
}

/// What a lookup of `base` and `quote` does once the store has answered: a live
/// entry is the answer, and the exchange is asked only where there is none or the
/// store failed.
pub open spec fn step_after_cache(cached: Reply, base: Seq<char>, quote: Seq<char>) -> StepView {
    match cached {
        Reply::Present(price) => StepView::Return(price),
        _ => StepView::Fetch(price_url_of(base, quote)),
    }
}

/// The price that a response to the price request gives.
pub open spec fn fetched_price(reply: Option<HttpReply<TickerData>>) -> Result<
    String,
    FetchError,
> {
    match interpreted(reply) {
        Ok(data) => Ok(data.amount),
        Err(error) => Err(error),
    }
}

/// What a lookup ends with, given the answer of the store and the response that a
/// fetch would get.
pub open spec fn lookup_outcome(cached: Reply, reply: Option<HttpReply<TickerData>>) -> Result<
    Seq<char>,
    FetchError,
> {
    match cached {
        Reply::Present(price) => Ok(price),
        _ => match fetched_price(reply) {
            Ok(price) => Ok(price@),
            Err(error) => Err(error),
        },
    }
}

/// A lookup reads the store under the key of every tick of Coinbase whose base and
/// quote are those of the lookup in upper case, whatever its price.
pub proof fn lemma_lookup_key_is_tick_key(tick: Tick, base: Seq<char>, quote: Seq<char>)
    requires
        tick.source == Source::Coinbase,
        tick.base == uppercase(base),
        tick.quote == uppercase(quote),
    ensures
        key_of(tick) == lookup_key_of(base, quote),
{
}

/// Where the store holds a live entry under the key of a lookup, the lookup ends
/// with the value of that entry at once: no fetch is asked for, and no response
/// could change the outcome.
pub proof fn lemma_live_entry_answers_lookup(
    store: Map<Seq<char>, Entry>,
    base: Seq<char>,
    quote: Seq<char>,
    now: nat,
    reply: Option<HttpReply<TickerData>>,
)
    requires
        live(store, lookup_key_of(base, quote), now),
    ensures
        ({
            let key = lookup_key_of(base, quote);
            let cached = set_reply(store, key, now);
            &&& step_after_cache(cached, base, quote) == StepView::Return(store[key].value)
            &&& lookup_outcome(cached, reply) == Ok::<Seq<char>, FetchError>(store[key].value)
        }),
{
}

/// Where the store gives no value and the fetch fails, the lookup ends in that
/// failure, never in a price.
pub proof fn lemma_failed_fetch_fails_lookup(
    cached: Reply,
    base: Seq<char>,
    quote: Seq<char>,
    reply: Option<HttpReply<TickerData>>,
)
    requires
        !(cached is Present),
        interpreted(reply) is Err,
    ensures
        step_after_cache(cached, base, quote) == StepView::Fetch(price_url_of(base, quote)),
        lookup_outcome(cached, reply) is Err,
        lookup_outcome(cached, reply)->Err_0 == interpreted(reply)->Err_0,
{
}

/// A response gives a value only with a success status, a body that could be read
/// and a body of the expected shape.
pub proof fn lemma_value_needs_success<T>(reply: Option<HttpReply<T>>)
    ensures
        interpreted(reply) is Ok <==> (reply matches Some(r) && r.success && r.body is Some
            && r.decoded is Some),
{
}

/// The key under which a lookup of `base` and `quote` reads the store.
pub fn lookup_key(base: &str, quote: &str) -> (r: String)
    ensures
        r@ == lookup_key_of(base@, quote@),
{
    let base = to_uppercase(base);
    let quote = to_uppercase(quote);
    let symbol = join_dash(base.as_str(), quote.as_str());
    join_dash(Source::Coinbase.name(), symbol.as_str())
}

/// The address at which Coinbase quotes the price of `base` in `quote`.
pub fn coinbase_price_url(base: &str, quote: &str) -> (r: String)
    ensures
        r@ == price_url_of(base@, quote@),
{
    let mut out = String::from_str("https://api.coinbase.com/v2/prices/");
    out.append(base);
    out.append("-");
    out.append(quote);
    out.append("/buy");
    out
}

/// Tells the value that a response stands for, or why it stands for none.
pub fn interpret_reply<T>(reply: Option<HttpReply<T>>) -> (r: Result<T, FetchError>)
    ensures
        r == interpreted(reply),
{
    match reply {
        None => Err(FetchError::Unreachable),
        Some(reply) => {
            if reply.success {
                match (reply.body, reply.decoded) {
                    (None, _) => Err(FetchError::Unreadable),
                    (Some(_), None) => Err(FetchError::Malformed),
                    (Some(_), Some(value)) => Ok(value),
                }
            } else {
                match reply.body {
                    Some(body) => Err(FetchError::Rejected(body)),
                    None => Err(FetchError::Unknown),
                }
            }
        },
    }
}

/// Decides, once the store has answered, whether the lookup of `base` and `quote`
/// is over or the exchange has to be asked.
pub fn after_cache(cached: CacheReply, base: &str, quote: &str) -> (r: LookupStep)
    ensures
        r@ == step_after_cache(cached@, base@, quote@),
{
    match cached {
        CacheReply::Present(price) => LookupStep::Return(price),
        _ => LookupStep::Fetch(coinbase_price_url(base, quote)),
    }
}

/// Begins a lookup of `base` and `quote` at `now` with a store in memory in the
/// place of the shared one: reads the store under the key of the lookup and decides
/// by what it holds.
pub fn begin_lookup(cache: &DedupCache, now: u64, base: &str, quote: &str) -> (r: LookupStep)
    ensures
        r@ == step_after_cache(
            set_reply(cache@, lookup_key_of(base@, quote@), now as nat),
            base@,
            quote@,
        ),
{
    let key = lookup_key(base, quote);
    after_cache(cache.get(key.as_str(), now), base, quote)
}

/// Ends a lookup that had to ask the exchange: the price that came back, or the
/// reason why none did. A failure is never turned into a price.
pub fn after_fetch(reply: Option<HttpReply<TickerData>>) -> (r: Result<String, FetchError>)
    ensures
        r == fetched_price(reply),
{
    match interpret_reply(reply) {
        Ok(data) => Ok(data.amount),
        Err(error) => Err(error),
    }
}

impl FetchError {
    /// The failure in words: the body of a rejected request, as it came.
    pub fn message(&self) -> (r: String)
        ensures
            r@ == match *self {
                FetchError::Unreachable => "No response"@,
                FetchError::Unreadable => "Unreadable response"@,
                FetchError::Malformed => "Malformed response"@,
                FetchError::Rejected(body) => body@,
                FetchError::Unknown => "Unknown error"@,
            },
    {
        match self {
            FetchError::Unreachable => String::from_str("No response"),
            FetchError::Unreadable => String::from_str("Unreadable response"),
            FetchError::Malformed => String::from_str("Malformed response"),
            FetchError::Rejected(body) => body.clone(),
            FetchError::Unknown => String::from_str("Unknown error"),
        }
    }
}

} // verus!

//! The canonical tick: one price observation for a trading pair, free of the
//! schema of the exchange it came from.

use vstd::prelude::*;
use vstd::string::*;
use vstd::std_specs::convert::FromSpecImpl;
use crate::json::{json_string, quote};
use crate::text::{
    ends_with, join_dash, joined_pair, lemma_split_joined_pair, lemma_split_without_separator,
    split_once, split_once_spec, strip_suffix,
};

verus! {

/// The exchange a tick was observed on.
#[derive(Clone, Copy, Debug, PartialEq, Eq, Structural)]
pub enum Source {
    Binance,
    Coinbase,
}

/// A ticker frame of Binance: the pair as one undivided symbol, and its last price.
#[derive(Clone, Debug, PartialEq, Eq)]
pub struct BinanceMessage {
    /// Symbol, such as `BTCUSDT`.
    pub s: String,
    /// Last price.
    pub c: String,
}

/// A ticker frame of Coinbase: the pair as `BASE-QUOTE`, and its last price.
#[derive(Clone, Debug, PartialEq, Eq)]
pub struct CoinbaseMessage {
    pub product_id: String,
    pub price: String,
}

/// The price that the Coinbase price endpoint quotes for a pair.
#[derive(Clone, Debug, PartialEq, Eq)]
pub struct TickerData {
    pub amount: String,
    pub base: String,
    pub currency: String,
}

/// A canonical tick. The price stays the decimal text that the exchange sent.
///
/// Ticks are made from the frames of the exchanges by `From`, which sees to it that
/// base and quote are either both there or both empty.
#[derive(Clone, Debug, PartialEq, Eq)]
pub struct WsMessage {
    pub source: Source,
    pub base: String,
    pub quote: String,
    pub price: String,
}

/// What a canonical tick holds.
pub struct Tick {
    pub source: Source,
    pub base: Seq<char>,
    pub quote: Seq<char>,
    pub price: Seq<char>,
}

/// The name under which a source appears in keys and payloads.
pub open spec fn source_name(source: Source) -> Seq<char> {
    match source {
        Source::Binance => "binance"@,
        Source::Coinbase => "coinbase"@,
    }
}

/// The quote currencies by which an undivided symbol is split, in the order in
/// which they are tried.
pub open spec fn quote_currencies() -> Seq<Seq<char>> {
    seq![
        "USDT"@, "BTC"@, "ETH"@, "BNB"@, "DAI"@, "USD"@, "EUR"@, "USDC"@, "TRY"@, "BRL"@, "ZAR"@,
        "ARS"@, "RON"@, "XRP"@, "UAH"@, "BIDR"@, "NGN"@, "PLN"@, "RUB"@, "DOGE"@, "IDRT"@,
    ]
}

/// `symbol` with a dash before the quote currency `currency` that ends it.
pub open spec fn dashed_at(symbol: Seq<char>, currency: Seq<char>) -> Seq<char> {
    joined_pair(symbol.take(symbol.len() - currency.len()), '-', currency)
}

/// `dashed_symbol`, trying only the currencies from position `k` on.
pub open spec fn dashed_from(symbol: Seq<char>, k: int) -> Seq<char>
    decreases quote_currencies().len() - k,
{
    if k < 0 || k >= quote_currencies().len() {
        Seq::empty()
    } else if ends_with(symbol, quote_currencies()[k]) {
        dashed_at(symbol, quote_currencies()[k])
    } else {
        dashed_from(symbol, k + 1)
    }
}

/// An undivided symbol as `BASE-QUOTE`: split before the first listed quote currency
/// that ends it. Empty where none does.
pub open spec fn dashed_symbol(symbol: Seq<char>) -> Seq<char> {
    dashed_from(symbol, 0)
}

/// Whether a tick names its pair in full or not at all: base and quote are both
/// there, or both empty.
pub open spec fn sides_agree(tick: Tick) -> bool {
    (tick.base.len() == 0) == (tick.quote.len() == 0)
}

/// Base and quote of a pair written as `BASE-QUOTE`: what stands before and after
/// its first dash, where something stands on either side. Both are empty where it
/// holds no dash, and also where nothing stands before or nothing after the dash.
pub open spec fn pair_of(product: Seq<char>) -> (Seq<char>, Seq<char>) {
    match split_once_spec(product, '-') {
        Some((base, quote)) => if base.len() > 0 && quote.len() > 0 {
            (base, quote)
        } else {
            (Seq::empty(), Seq::empty())
        },
        None => (Seq::empty(), Seq::empty()),
    }
}

/// The canonical tick of a Binance frame with the given symbol and price.
pub open spec fn tick_of_binance(symbol: Seq<char>, price: Seq<char>) -> Tick {
    let pair = pair_of(dashed_symbol(symbol));
    Tick { source: Source::Binance, base: pair.0, quote: pair.1, price }
}

/// The canonical tick of a Coinbase frame with the given product and price.
pub open spec fn tick_of_coinbase(product_id: Seq<char>, price: Seq<char>) -> Tick {
    let pair = pair_of(product_id);
    Tick { source: Source::Coinbase, base: pair.0, quote: pair.1, price }
}

/// The pair of a tick as `BASE-QUOTE`.
pub open spec fn symbol_of(tick: Tick) -> Seq<char> {
    joined_pair(tick.base, '-', tick.quote)
}

/// The key under which the price of a tick is remembered: `SOURCE-BASE-QUOTE`.
pub open spec fn key_of(tick: Tick) -> Seq<char> {
    joined_pair(source_name(tick.source), '-', symbol_of(tick))
}

/// How a frame of an exchange reads in a log line.
pub open spec fn frame_description(symbol: Seq<char>, price: Seq<char>) -> Seq<char> {
    "(Ticker: "@ + symbol + " - "@ + price + ")"@
}

/// How a tick reads in a log line.
pub open spec fn description_of(tick: Tick) -> Seq<char> {
    "(Ticker: "@ + source_name(tick.source) + " - "@ + symbol_of(tick) + " - "@ + tick.price
        + ")"@
}

/// The JSON object of a tick, given its four members as JSON string literals.
pub open spec fn tick_payload(
    source: Seq<char>,
    base: Seq<char>,
    quote: Seq<char>,
    price: Seq<char>,
) -> Seq<char> {
    "{\"source\":"@ + source + ",\"base\":"@ + base + ",\"quote\":"@ + quote + ",\"price\":"@
        + price + "}"@
}

/// The text in which a tick travels to subscribers: a JSON object with the members
/// `source`, `base`, `quote` and `price`, in this order. `None` where one of the
/// members cannot be written as a JSON string.
pub open spec fn payload_of(tick: Tick) -> Option<Seq<char>> {
    match (
        json_string(source_name(tick.source)),
        json_string(tick.base),
        json_string(tick.quote),
        json_string(tick.price),
    ) {
        (Some(source), Some(base), Some(quote), Some(price)) => Some(
            tick_payload(source, base, quote, price),
        ),
        _ => None,
    }
}

/// The currency tried at position `k` ends the symbol, and none before it does.
pub open spec fn is_first_match(symbol: Seq<char>, k: int) -> bool {
    &&& 0 <= k < quote_currencies().len()
    &&& ends_with(symbol, quote_currencies()[k])
    &&& forall|j: int| 0 <= j < k ==> !ends_with(symbol, #[trigger] quote_currencies()[j])
}

proof fn lemma_dashed_from(symbol: Seq<char>, from: int, k: int)
    requires
        0 <= from <= k,
        k <= quote_currencies().len(),
        forall|j: int| from <= j < k ==> !ends_with(symbol, #[trigger] quote_currencies()[j]),
    ensures
        dashed_from(symbol, from) == dashed_from(symbol, k),
    decreases k - from,
{
    if from < k {
        lemma_dashed_from(symbol, from + 1, k);
    }
}

/// The split is made before the first listed currency that ends the symbol.
proof fn lemma_dashed_symbol_first_match(symbol: Seq<char>, k: int)
    requires
        is_first_match(symbol, k),
    ensures
        dashed_symbol(symbol) == dashed_at(symbol, quote_currencies()[k]),
{
    lemma_dashed_from(symbol, 0, k);
}

/// A symbol that no listed currency ends is not split.
proof fn lemma_dashed_symbol_no_match(symbol: Seq<char>)
    requires
        forall|j: int|
            0 <= j < quote_currencies().len() ==> !ends_with(
                symbol,
                #[trigger] quote_currencies()[j],
            ),
    ensures
        dashed_symbol(symbol) == Seq::<char>::empty(),
{
    lemma_dashed_from(symbol, 0, quote_currencies().len() as int);
}

/// What `dashed_symbol` comes to: the split before the first listed currency that
/// ends the symbol, and nothing where none does.
pub proof fn lemma_dashed_symbol(symbol: Seq<char>)
    ensures
        forall|k: int|
            is_first_match(symbol, k) ==> dashed_symbol(symbol) == dashed_at(
                symbol,
                #[trigger] quote_currencies()[k],
            ),
        (forall|j: int|
            0 <= j < quote_currencies().len() ==> !ends_with(
                symbol,
                #[trigger] quote_currencies()[j],
            )) ==> dashed_symbol(symbol).len() == 0,
{
    assert forall|k: int| is_first_match(symbol, k) implies dashed_symbol(symbol) == dashed_at(
        symbol,
        #[trigger] quote_currencies()[k],
    ) by {
        lemma_dashed_symbol_first_match(symbol, k);
    }
    if forall|j: int|
        0 <= j < quote_currencies().len() ==> !ends_with(
            symbol,
            #[trigger] quote_currencies()[j],
        ) {
        lemma_dashed_symbol_no_match(symbol);
    }
}

/// Every listed quote currency has at least three characters.
pub proof fn lemma_quote_currencies_are_not_empty()
    ensures
        quote_currencies().len() == 21,
        forall|j: int| 0 <= j < 21 ==> (#[trigger] quote_currencies()[j]).len() >= 3,
{
    reveal_strlit("USDT");
    reveal_strlit("BTC");
    reveal_strlit("ETH");
    reveal_strlit("BNB");
    reveal_strlit("DAI");
    reveal_strlit("USD");
    reveal_strlit("EUR");
    reveal_strlit("USDC");
    reveal_strlit("TRY");
    reveal_strlit("BRL");
    reveal_strlit("ZAR");
    reveal_strlit("ARS");
    reveal_strlit("RON");
    reveal_strlit("XRP");
    reveal_strlit("UAH");
    reveal_strlit("BIDR");
    reveal_strlit("NGN");
    reveal_strlit("PLN");
    reveal_strlit("RUB");
    reveal_strlit("DOGE");
    reveal_strlit("IDRT");
}

/// A tick of either exchange names its pair in full or not at all.
pub proof fn lemma_sides_agree(text: Seq<char>, price: Seq<char>)
    ensures
        sides_agree(tick_of_binance(text, price)),
        sides_agree(tick_of_coinbase(text, price)),
{
}

/// The tick of a Binance frame whose symbol holds no dash and ends with a listed
/// quote currency, with something before it: the first such currency is the quote,
/// and what stands before it is the base.
pub proof fn lemma_binance_tick(symbol: Seq<char>, price: Seq<char>, k: int)
    requires
        is_first_match(symbol, k),
        !symbol.contains('-'),
        symbol.len() > quote_currencies()[k].len(),
    ensures
        tick_of_binance(symbol, price) == (Tick {
            source: Source::Binance,
            base: symbol.take(symbol.len() - quote_currencies()[k].len()),
            quote: quote_currencies()[k],
            price,
        }),
{
    let currency = quote_currencies()[k];
    let base = symbol.take(symbol.len() - currency.len());
    lemma_quote_currencies_are_not_empty();
    lemma_dashed_symbol_first_match(symbol, k);
    assert(!base.contains('-')) by {
        if base.contains('-') {
            let i = choose|i: int| 0 <= i < base.len() && base[i] == '-';
            assert(symbol[i] == '-');
        }
    }
    lemma_split_joined_pair(base, '-', currency);
}

/// The tick of a Binance frame whose symbol is nothing but a listed quote currency:
/// nothing is left for the base, so it is kept with an empty base and an empty
/// quote.
pub proof fn lemma_binance_tick_bare(symbol: Seq<char>, price: Seq<char>, k: int)
    requires
        is_first_match(symbol, k),
        symbol.len() == quote_currencies()[k].len(),
    ensures
        tick_of_binance(symbol, price) == (Tick {
            source: Source::Binance,
            base: Seq::empty(),
            quote: Seq::empty(),
            price,
        }),
{
    let currency = quote_currencies()[k];
    let base = symbol.take(0);
    lemma_dashed_symbol_first_match(symbol, k);
    assert(!base.contains('-'));
    lemma_split_joined_pair(base, '-', currency);
    assert(tick_of_binance(symbol, price).base =~= Seq::<char>::empty());
}

/// The tick of a Binance frame whose symbol ends with no listed quote currency: it
/// is kept, with an empty base and an empty quote.
pub proof fn lemma_binance_tick_unknown(symbol: Seq<char>, price: Seq<char>)
    requires
        forall|j: int|
            0 <= j < quote_currencies().len() ==> !ends_with(
                symbol,
                #[trigger] quote_currencies()[j],
            ),
    ensures
        tick_of_binance(symbol, price) == (Tick {
            source: Source::Binance,
            base: Seq::empty(),
            quote: Seq::empty(),
            price,
        }),
{
    lemma_dashed_symbol_no_match(symbol);
    lemma_split_without_separator(dashed_symbol(symbol), '-');
}

/// The tick of a Coinbase frame for the product `BASE-QUOTE`, where the base holds
/// no dash and neither side is empty.
pub proof fn lemma_coinbase_tick(base: Seq<char>, quote: Seq<char>, price: Seq<char>)
    requires
        !base.contains('-'),
        base.len() > 0,
        quote.len() > 0,
    ensures
        tick_of_coinbase(joined_pair(base, '-', quote), price) == (Tick {
            source: Source::Coinbase,
            base,
            quote,
            price,
        }),
        symbol_of(tick_of_coinbase(joined_pair(base, '-', quote), price)) == joined_pair(
            base,
            '-',
            quote,
        ),
{
    lemma_split_joined_pair(base, '-', quote);
}

/// The tick of a Coinbase frame for a product with nothing before its first dash,
/// or nothing after it: it is kept, with an empty base and an empty quote.
pub proof fn lemma_coinbase_tick_one_sided(base: Seq<char>, quote: Seq<char>, price: Seq<char>)
    requires
        !base.contains('-'),
        base.len() == 0 || quote.len() == 0,
    ensures
        tick_of_coinbase(joined_pair(base, '-', quote), price) == (Tick {
            source: Source::Coinbase,
            base: Seq::empty(),
            quote: Seq::empty(),
            price,
        }),
{
    lemma_split_joined_pair(base, '-', quote);
}

/// The tick of a Coinbase frame whose product holds no dash: it is kept, with an
/// empty base and an empty quote.
pub proof fn lemma_coinbase_tick_undivided(product_id: Seq<char>, price: Seq<char>)
    requires
        !product_id.contains('-'),
    ensures
        tick_of_coinbase(product_id, price) == (Tick {
            source: Source::Coinbase,
            base: Seq::empty(),
            quote: Seq::empty(),
            price,
        }),
{
    lemma_split_without_separator(product_id, '-');
}

/// Writes an undivided symbol such as `BTCUSDT` as `BTC-USDT`. The result is empty
/// where the symbol ends with none of the known quote currencies.
pub fn get_symbol(symbol: &str) -> (r: String)
    ensures
        r@ == dashed_symbol(symbol@),
        forall|k: int|
            is_first_match(symbol@, k) ==> r@ == dashed_at(symbol@, #[trigger] quote_currencies()[k]),
        (forall|j: int|
            0 <= j < quote_currencies().len() ==> !ends_with(
                symbol@,
                #[trigger] quote_currencies()[j],
            )) ==> r@.len() == 0,
{
    let known: [&str; 21] = [
        "USDT", "BTC", "ETH", "BNB", "DAI", "USD", "EUR", "USDC", "TRY", "BRL", "ZAR", "ARS",
        "RON", "XRP", "UAH", "BIDR", "NGN", "PLN", "RUB", "DOGE", "IDRT",
    ];
    assert(quote_currencies().len() == 21);
    assert(forall|j: int| 0 <= j < 21 ==> (#[trigger] known[j])@ == quote_currencies()[j]);
    let mut i: usize = 0;
    while i < 21
        invariant
            i <= 21,
            quote_currencies().len() == 21,
            forall|j: int| 0 <= j < 21 ==> (#[trigger] known[j])@ == quote_currencies()[j],
            dashed_from(symbol@, i as int) == dashed_symbol(symbol@),
        decreases 21 - i,
    {
        let currency: &str = known[i];
        match strip_suffix(symbol, currency) {
            Some(base) => {
                proof {
                    assert(base@ =~= symbol@.take(symbol@.len() - currency@.len()));
                    lemma_dashed_symbol(symbol@);
                }
                return join_dash(base, currency);
            },
            None => {},
        }
        i += 1;
    }
    proof {
        lemma_dashed_symbol(symbol@);
    }
    String::new()
}

/// Base and quote of a pair written as `BASE-QUOTE`.
fn split_pair(product: &str) -> (r: (String, String))
    ensures
        (r.0@, r.1@) == pair_of(product@),
{
    match split_once(product, '-') {
        Some((base, quote)) => {
            if base.is_empty() || quote.is_empty() {
                (String::new(), String::new())
            } else {
                (String::from_str(base), String::from_str(quote))
            }
        },
        None => (String::new(), String::new()),
    }
}

impl Source {
    /// The name under which the source appears in keys and payloads.
    pub fn name(self) -> (r: &'static str)
        ensures
            r@ == source_name(self),
    {
        match self {
            Source::Binance => "binance",
            Source::Coinbase => "coinbase",
        }
    }
}

impl BinanceMessage {
    /// How the frame reads in a log line: `(Ticker: SYMBOL - PRICE)`.
    pub fn describe(&self) -> (r: String)
        ensures
            r@ == frame_description(self.s@, self.c@),
    {
        describe_frame(self.s.as_str(), self.c.as_str())
    }
}

impl CoinbaseMessage {
    /// How the frame reads in a log line: `(Ticker: PRODUCT - PRICE)`.
    pub fn describe(&self) -> (r: String)
        ensures
            r@ == frame_description(self.product_id@, self.price@),
    {
        describe_frame(self.product_id.as_str(), self.price.as_str())
    }
}

fn describe_frame(symbol: &str, price: &str) -> (r: String)
    ensures
        r@ == frame_description(symbol@, price@),
{
    let mut out = String::from_str("(Ticker: ");
    out.append(symbol);
    out.append(" - ");
    out.append(price);
    out.append(")");
    out
}

impl View for WsMessage {
    type V = Tick;

    open spec fn view(&self) -> Tick {
        Tick { source: self.source, base: self.base@, quote: self.quote@, price: self.price@ }
    }
}

impl WsMessage {
    /// The key under which the price of this tick is remembered.
    pub fn get_key(&self) -> (r: String)
        ensures
            r@ == key_of(self@),
    {
        let symbol = self.get_symbol();
        join_dash(self.source.name(), symbol.as_str())
    }

    /// The pair of this tick as `BASE-QUOTE`.
    pub fn get_symbol(&self) -> (r: String)
        ensures
            r@ == symbol_of(self@),
    {
        join_dash(self.base.as_str(), self.quote.as_str())
    }

    /// The exchange this tick came from.
    pub fn source(&self) -> (r: Source)
        ensures
            r == self@.source,
    {
        self.source
    }

    /// The asset that is priced.
    pub fn base(&self) -> (r: &str)
        ensures
            r@ == self@.base,
    {
        self.base.as_str()
    }

    /// The asset in which the price is given.
    pub fn quote(&self) -> (r: &str)
        ensures
            r@ == self@.quote,
    {
        self.quote.as_str()
    }

    /// The price, as the exchange wrote it.
    pub fn price(&self) -> (r: &str)
        ensures
            r@ == self@.price,
    {
        self.price.as_str()
    }

    /// How the tick reads in a log line: `(Ticker: SOURCE - BASE-QUOTE - PRICE)`.
    pub fn describe(&self) -> (r: String)
        ensures
            r@ == description_of(self@),
    {
        let symbol = self.get_symbol();
        let mut out = String::from_str("(Ticker: ");
        out.append(self.source.name());
        out.append(" - ");
        out.append(symbol.as_str());
        out.append(" - ");
        out.append(self.price.as_str());
        out.append(")");
        assert(out@ =~= description_of(self@));
        out
    }

    /// The text in which this tick travels to subscribers.
    pub fn to_json(&self) -> (r: Option<String>)
        ensures
            match r {
                Some(text) => payload_of(self@) == Some(text@),
                None => payload_of(self@) is None,
            },
    {
        let source = quote(self.source.name());
        let base = quote(self.base.as_str());
        let pair_quote = quote(self.quote.as_str());
        let price = quote(self.price.as_str());
        match (source, base, pair_quote, price) {
            (Some(source), Some(base), Some(pair_quote), Some(price)) => Some(
                frame_tick(source.as_str(), base.as_str(), pair_quote.as_str(), price.as_str()),
            ),
            _ => None,
        }
    }
}

/// Frames the JSON object of a tick around its four members, each given as a JSON
/// string literal.
pub fn frame_tick(source: &str, base: &str, quote: &str, price: &str) -> (r: String)
    ensures
        r@ == tick_payload(source@, base@, quote@, price@),
{
    let mut out = String::from_str("{\"source\":");
    out.append(source);
    out.append(",\"base\":");
    out.append(base);
    out.append(",\"quote\":");
    out.append(quote);
    out.append(",\"price\":");
    out.append(price);
    out.append("}");
    assert(out@ =~= tick_payload(source@, base@, quote@, price@));
    out
}

impl From<BinanceMessage> for WsMessage {
    /// Normalises a Binance frame: the symbol is split before its quote currency.
    /// Where that leaves nothing for the base, or no listed currency ends the
    /// symbol, base and quote are both empty.
    fn from(msg: BinanceMessage) -> (r: WsMessage)
        ensures
            r@ == tick_of_binance(msg.s@, msg.c@),
            r.price == msg.c,
            sides_agree(r@),
    {
        let symbol = get_symbol(msg.s.as_str());
        let (base, quote) = split_pair(symbol.as_str());
        WsMessage { source: Source::Binance, price: msg.c, base, quote }
    }
}

impl FromSpecImpl<BinanceMessage> for WsMessage {
    open spec fn obeys_from_spec() -> bool {
        false
    }

    open spec fn from_spec(v: BinanceMessage) -> Self {
        arbitrary()
    }
}

impl From<CoinbaseMessage> for WsMessage {
    /// Normalises a Coinbase frame: the product is split at its first dash. Where
    /// it holds no dash, or nothing stands on one side of it, base and quote are
    /// both empty.
    fn from(msg: CoinbaseMessage) -> (r: WsMessage)
        ensures
            r@ == tick_of_coinbase(msg.product_id@, msg.price@),
            r.price == msg.price,
            sides_agree(r@),
    {
        let (base, quote) = split_pair(msg.product_id.as_str());
        WsMessage { source: Source::Coinbase, price: msg.price, base, quote }
    }
}

impl FromSpecImpl<CoinbaseMessage> for WsMessage {
    open spec fn obeys_from_spec() -> bool {
        false
    }

    open spec fn from_spec(v: CoinbaseMessage) -> Self {
        arbitrary()
    }
}

} // verus!

//! What the text frames of each exchange amount to for a connector.

use vstd::prelude::*;
use vstd::string::*;
use crate::connector::{ConnectorEvent, EventView};
use crate::json::{document_members, member, member_text, parse};
use crate::text::same_text;
use crate::ws_message::{
    tick_of_binance, tick_of_coinbase, BinanceMessage, CoinbaseMessage, WsMessage,
};

verus! {

/// The event that a text frame of Binance amounts to, given what decoding it gave.
pub open spec fn binance_event(decoded: Option<BinanceMessage>) -> EventView {
    match decoded {
        Some(msg) => EventView::Tick(tick_of_binance(msg.s@, msg.c@)),
        None => EventView::Malformed,
    }
}

/// What parsing a text frame of Coinbase gave: the text under `type`, if there is
/// one, and the frame decoded as a ticker message, if it can be.
#[derive(Clone, Debug, PartialEq, Eq)]
pub struct CoinbaseFrame {
    pub kind: Option<String>,
    pub ticker: Option<CoinbaseMessage>,
}

/// The event that a well-formed frame of Coinbase amounts to, given the text that
/// it holds under `type` and what decoding it as a ticker message gave. Only a
/// frame that says of itself that it is a ticker message is decoded; every other is
/// skipped.
pub open spec fn ticker_event(kind: Option<Seq<char>>, ticker: Option<CoinbaseMessage>) -> EventView {
    if kind == Some("ticker"@) {
        match ticker {
            Some(msg) => EventView::Tick(tick_of_coinbase(msg.product_id@, msg.price@)),
            None => EventView::Malformed,
        }
    } else {
        EventView::Skipped
    }
}

/// The event that a text frame of Coinbase amounts to, given what parsing it gave.
pub open spec fn coinbase_event(parsed: Option<CoinbaseFrame>) -> EventView {
    match parsed {
        None => EventView::Malformed,
        Some(frame) => ticker_event(
            match frame.kind {
                Some(kind) => Some(kind@),
                None => None,
            },
            frame.ticker,
        ),
    }
}

/// The event that the text frame `text` of Coinbase amounts to, given what decoding
/// it as a ticker message gave. A text that is no JSON is malformed.
pub open spec fn coinbase_text_event(text: Seq<char>, ticker: Option<CoinbaseMessage>) -> EventView {
    match document_members(text) {
        None => EventView::Malformed,
        Some(members) => ticker_event(member(members, "type"@), ticker),
    }
}

/// Turns what decoding a text frame of Binance gave into an event.
pub fn binance_frame(decoded: Option<BinanceMessage>) -> (r: ConnectorEvent)
    ensures
        r@ == binance_event(decoded),
{
    match decoded {
        Some(msg) => ConnectorEvent::Tick(WsMessage::from(msg)),
        None => ConnectorEvent::Malformed,
    }
}

/// Turns a text frame of Coinbase into an event. The frame is read as JSON here;
/// `ticker` is what decoding it as a ticker message gave.
pub fn coinbase_frame(text: &str, ticker: Option<CoinbaseMessage>) -> (r: ConnectorEvent)
    ensures
        r@ == coinbase_text_event(text@, ticker),
{
    let parsed = match parse(text) {
        Some(value) => Some(CoinbaseFrame { kind: member_text(&value, "type"), ticker }),
        None => None,
    };
    classify_coinbase(parsed)
}

/// Turns what parsing a text frame of Coinbase gave into an event.
pub fn classify_coinbase(parsed: Option<CoinbaseFrame>) -> (r: ConnectorEvent)
    ensures
        r@ == coinbase_event(parsed),
{
    match parsed {
        None => ConnectorEvent::Malformed,
        Some(frame) => {
            let ticker = match &frame.kind {
                Some(kind) => same_text(kind.as_str(), "ticker"),
                None => false,
            };
            if ticker {
                match frame.ticker {
                    Some(msg) => ConnectorEvent::Tick(WsMessage::from(msg)),
                    None => ConnectorEvent::Malformed,
                }
            } else {
                ConnectorEvent::Skipped
            }
        },
    }
}

} // verus!

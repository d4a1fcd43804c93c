//! How a connector names what it wants to hear of: the endpoint that carries the
//! streams of a group, and the message that subscribes to a list of products.

use vstd::prelude::*;
use vstd::string::*;
use crate::json::{json_string, quote};
use crate::text::{join, joined};

verus! {

/// The endpoint of Binance for the streams of one subscription group.
pub fn binance_endpoint(ws_url: &str, streams: &str) -> (r: String)
    ensures
        r@ == ws_url@ + "/"@ + streams@,
{
    let mut out = String::from_str(ws_url);
    out.append("/");
    out.append(streams);
    out
}

/// One entry of the channel list: the ticker channel for the product whose JSON
/// string literal is `product`.
pub open spec fn channel_entry(product: Seq<char>) -> Seq<char> {
    "{\"name\":\"ticker\",\"product_ids\":["@ + product + "]}"@
}

/// The subscription message of Coinbase around the entries of its channel list.
pub open spec fn subscription_text(entries: Seq<Seq<char>>) -> Seq<char> {
    "{\"type\":\"subscribe\",\"channels\":["@ + joined(entries, ","@) + "]}"@
}

/// The entries of the channel list for `products`, one for each product and in their
/// order. `None` where one of the products cannot be written as a JSON string.
pub open spec fn channel_entries(products: Seq<Seq<char>>) -> Option<Seq<Seq<char>>>
    decreases products.len(),
{
    if products.len() == 0 {
        Some(Seq::empty())
    } else {
        match (channel_entries(products.drop_last()), json_string(products.last())) {
            (Some(entries), Some(literal)) => Some(entries.push(channel_entry(literal))),
            _ => None,
        }
    }
}

/// The message that subscribes to the ticker channel of each of `products`.
pub open spec fn subscription_of(products: Seq<Seq<char>>) -> Option<Seq<char>> {
    match channel_entries(products) {
        Some(entries) => Some(subscription_text(entries)),
        None => None,
    }
}

/// Frames the subscription message of Coinbase around the entries of its channel list.
pub fn frame_subscription(entries: &Vec<String>) -> (r: String)
    ensures
        r@ == subscription_text(entries@.map_values(|e: String| e@)),
{
    let list = join(entries, ",");
    let mut out = String::from_str("{\"type\":\"subscribe\",\"channels\":[");
    out.append(list.as_str());
    out.append("]}");
    out
}

/// Frames one entry of the channel list around the JSON string literal of a product.
pub fn frame_channel(product: &str) -> (r: String)
    ensures
        r@ == channel_entry(product@),
{
    let mut out = String::from_str("{\"name\":\"ticker\",\"product_ids\":[");
    out.append(product);
    out.append("]}");
    out
}

/// Writes the message that subscribes to the ticker channel of each of `products`.
pub fn coinbase_subscription(products: &Vec<String>) -> (r: Option<String>)
    ensures
        match r {
            Some(message) => subscription_of(products@.map_values(|p: String| p@)) == Some(
                message@,
            ),
            None => subscription_of(products@.map_values(|p: String| p@)) is None,
        },
{
    let ghost names = products@.map_values(|p: String| p@);
    let mut entries: Vec<String> = Vec::new();
    let mut i: usize = 0;
    while i < products.len()
        invariant
            i <= products.len(),
            names == products@.map_values(|p: String| p@),
            channel_entries(names.take(i as int)) == Some(entries@.map_values(|e: String| e@)),
        decreases products.len() - i,
    {
        proof {
            assert(names.take(i + 1).drop_last() =~= names.take(i as int));
            assert(names.take(i + 1).last() == products@[i as int]@);
        }
        match quote(products[i].as_str()) {
            Some(literal) => {
                let entry = frame_channel(literal.as_str());
                proof {
                    assert(entries@.push(entry).map_values(|e: String| e@)
                        =~= entries@.map_values(|e: String| e@).push(entry@));
                }
                entries.push(entry);
            },
            None => {
                proof {
                    lemma_channel_entries_none(names, i + 1);
                }
                return None;
            },
        }
        i += 1;
    }
    proof {
        assert(names.take(products.len() as int) =~= names);
    }
    Some(frame_subscription(&entries))
}

/// Where the entries cannot be written for the first `k` products, they cannot be
/// written for all of them.
proof fn lemma_channel_entries_none(products: Seq<Seq<char>>, k: int)
    requires
        0 <= k <= products.len(),
        channel_entries(products.take(k)) is None,
    ensures
        channel_entries(products) is None,
    decreases products.len() - k,
{
    if k < products.len() {
        assert(products.take(k + 1).drop_last() =~= products.take(k));
        lemma_channel_entries_none(products, k + 1);
    } else {
        assert(products.take(k) =~= products);
    }
}

} // verus!

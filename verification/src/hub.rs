//! The rules by which one subscriber of the broadcast hub is served. The hub itself
//! is a channel of the runtime; what is decided here is what the task of a
//! subscriber does with each thing that its handle gives.

use vstd::prelude::*;

verus! {

/// How many ticks the hub keeps for subscribers that are behind.
pub const HUB_CAPACITY: usize = 100;

/// What the handle of a subscriber gives when it is asked for the next tick.
#[derive(Clone, Debug, PartialEq, Eq)]
pub enum Delivery {
    /// The payload of the next tick.
    Payload(String),
    /// The subscriber fell behind, and this many ticks are lost to it. The handle
    /// goes on with the oldest tick that the hub still keeps.
    Lagged(u64),
    /// No connector is left to publish.
    Closed,
}

/// What the task of a subscriber does next.
#[derive(Clone, Debug, PartialEq, Eq)]
pub enum SubscriberAction {
    /// Send this text to the peer, then ask for the next tick.
    Forward(String),
    /// Send nothing, and ask for the next tick.
    Skip,
    /// Close the connection to the peer and end.
    Close,
}

/// What follows from a delivery. A payload goes to the peer as it is. A subscriber
/// that fell behind sees a gap: nothing is sent for the ticks it lost, and it goes on
/// with the next delivery. Only a hub that is gone ends it. No subscriber ever holds
/// a connector back.
pub open spec fn served(delivery: Delivery) -> SubscriberAction {
    match delivery {
        Delivery::Payload(text) => SubscriberAction::Forward(text),
        Delivery::Lagged(_) => SubscriberAction::Skip,
        Delivery::Closed => SubscriberAction::Close,
    }
}

/// The texts that go to the peer of a subscriber whose handle gives `deliveries`
/// one after the other, for as long as its own connection holds.
pub open spec fn forwarded(deliveries: Seq<Delivery>) -> Seq<String>
    decreases deliveries.len(),
{
    if deliveries.len() == 0 {
        Seq::empty()
    } else {
        match served(deliveries.first()) {
            SubscriberAction::Forward(text) => seq![text] + forwarded(deliveries.drop_first()),
            SubscriberAction::Skip => forwarded(deliveries.drop_first()),
            SubscriberAction::Close => Seq::empty(),
        }
    }
}

/// A subscriber that fell behind is sent what is delivered after the gap, as if the
/// gap had not been: it loses the ticks of the gap and nothing else.
pub proof fn lemma_gap_loses_nothing_later(missed: u64, later: Seq<Delivery>)
    ensures
        forwarded(seq![Delivery::Lagged(missed)] + later) == forwarded(later),
{
    let all = seq![Delivery::Lagged(missed)] + later;
    assert(all.first() == Delivery::Lagged(missed));
    assert(all.drop_first() =~= later);
}

/// A payload goes to the peer before everything that is delivered after it.
pub proof fn lemma_payload_goes_first(text: String, later: Seq<Delivery>)
    ensures
        forwarded(seq![Delivery::Payload(text)] + later) == seq![text] + forwarded(later),
{
    let all = seq![Delivery::Payload(text)] + later;
    assert(all.first() == Delivery::Payload(text));
    assert(all.drop_first() =~= later);
}

/// Only a hub that is gone ends a subscriber, and nothing is sent after it.
pub proof fn lemma_only_closed_ends(delivery: Delivery, later: Seq<Delivery>)
    ensures
        served(delivery) == SubscriberAction::Close <==> delivery == Delivery::Closed,
        forwarded(seq![Delivery::Closed] + later) == Seq::<String>::empty(),
{
    let all = seq![Delivery::Closed] + later;
    assert(all.first() == Delivery::Closed);
}

/// Decides what the task of a subscriber does with a delivery.
pub fn serve(delivery: Delivery) -> (r: SubscriberAction)
    ensures
        r == served(delivery),
{
    match delivery {
        Delivery::Payload(text) => SubscriberAction::Forward(text),
        Delivery::Lagged(_) => SubscriberAction::Skip,
        Delivery::Closed => SubscriberAction::Close,
    }
}

} // verus!

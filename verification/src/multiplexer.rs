//! The event multiplexer: one decision per arrival from any of the node's
//! sources, and one consumer in place at any time.
//!
//! Waiting on the sources and sending to the consumer is the host's part. It
//! hands each arrival to [`Multiplexer::step`], sends what the step returns
//! to [`Multiplexer::consumer`], and reports a failed send with
//! [`Multiplexer::forward_failed`].

use vstd::prelude::*;
use p2panda_core::PublicKey;
use crate::codec::{decode, pair_decoding, PayloadError};
use crate::messages::{ApplicationMessage, ChannelEvent, SystemEvent};

verus! {

/// A message that the overlay hands up on the subscribed topic.
#[derive(Debug, Clone)]
pub enum FromNetwork {
    /// A payload that a peer broadcast over the gossip overlay.
    GossipMessage { bytes: Vec<u8>, delivered_from: PublicKey },
    /// A payload that a synchronization session brought.
    SyncMessage { header: Vec<u8>, payload: Option<Vec<u8>>, delivered_from: PublicKey },
}

/// What one of the four sources yields.
#[derive(Debug, Clone)]
pub enum Arrival<C> {
    /// A status notification of the overlay.
    System(SystemEvent),
    /// A message from the subscribed topic.
    Network(FromNetwork),
    /// A sample that this node published.
    Local { timestamp: u64, sample_index: u16 },
    /// A consumer that registers, taking the place of the current one.
    Consumer(C),
}

/// Why the multiplexer stopped. Each of these is final.
#[derive(Debug, Clone, Copy, PartialEq, Eq, Structural)]
pub enum RelayError {
    /// A gossip payload was malformed or truncated.
    UndecodablePayload,
    /// A synchronization payload arrived on the gossip path.
    UnexpectedSyncMessage,
    /// The consumer could not be reached.
    ConsumerUnreachable,
}

/// The state of the relay: whose node it is, who receives, and whether it
/// has stopped.
#[derive(Debug)]
pub struct Multiplexer<C> {
    pub identity: PublicKey,
    pub consumer: C,
    pub halted: Option<RelayError>,
}

/// An event together with the consumer that it goes to.
pub struct Delivery<C> {
    pub consumer: C,
    pub event: ChannelEvent,
}

/// The consumer that is in place when the arrival at position `at` is taken
/// up: the one that registered last before it, or `first` where none did.
pub open spec fn registered_before<C>(first: C, arrivals: Seq<Arrival<C>>, at: int) -> C
    decreases at,
{
    if at <= 0 {
        first
    } else {
        match arrivals[at - 1] {
            Arrival::Consumer(consumer) => consumer,
            _ => registered_before(first, arrivals, at - 1),
        }
    }
}

/// The event that a decoded gossip payload becomes: the sample, attributed
/// to the peer that delivered it; or the end of the relay where the payload
/// did not decode.
pub open spec fn attributed(decoded: Result<(u64, u16), PayloadError>, sender: PublicKey) -> Result<
    ChannelEvent,
    RelayError,
> {
    match decoded {
        Ok(pair) => Ok(
            ChannelEvent::ApplicationMessage(
                ApplicationMessage { public_key: sender, timestamp: pair.0, sample_index: pair.1 },
            ),
        ),
        Err(_) => Err(RelayError::UndecodablePayload),
    }
}

/// What a running relay of the node `identity` makes of one arrival: an event
/// to forward, nothing, or the reason to stop.
pub open spec fn relayed<C>(identity: PublicKey, arrival: Arrival<C>) -> Result<
    Option<ChannelEvent>,
    RelayError,
> {
    match arrival {
        Arrival::System(event) => Ok(Some(ChannelEvent::SystemEvent(event))),
        Arrival::Network(FromNetwork::GossipMessage { bytes, delivered_from }) => {
            match attributed(crate::codec::decoded(pair_decoding(bytes@)), delivered_from) {
                Ok(event) => Ok(Some(event)),
                Err(error) => Err(error),
            }
        },
        Arrival::Network(FromNetwork::SyncMessage { .. }) => Err(RelayError::UnexpectedSyncMessage),
        Arrival::Local { timestamp, sample_index } => Ok(
            Some(
                ChannelEvent::ApplicationMessage(
                    ApplicationMessage { public_key: identity, timestamp, sample_index },
                ),
            ),
        ),
        Arrival::Consumer(_) => Ok(None),
    }
}

/// Attributes a decoded gossip payload to its sender.
pub fn attribute(decoded: Result<(u64, u16), PayloadError>, sender: PublicKey) -> (r: Result<
    ChannelEvent,
    RelayError,
>)
    ensures
        r == attributed(decoded, sender),
{
    match decoded {
        Ok(pair) => Ok(
            ChannelEvent::ApplicationMessage(
                ApplicationMessage { public_key: sender, timestamp: pair.0, sample_index: pair.1 },
            ),
        ),
        Err(_) => Err(RelayError::UndecodablePayload),
    }
}

impl<C> Multiplexer<C> {
    /// What this relay answers to `arrival`: once stopped, the reason it
    /// stopped for; else what [`relayed`] says.
    pub open spec fn outcome(self, arrival: Arrival<C>) -> Result<Option<ChannelEvent>, RelayError> {
        match self.halted {
            Some(error) => Err(error),
            None => relayed(self.identity, arrival),
        }
    }

    /// The relay after `arrival`: a registering consumer takes the place of
    /// the current one, a fatal arrival stops the relay, and nothing else
    /// changes it.
    pub open spec fn after(self, arrival: Arrival<C>) -> Self {
        match self.outcome(arrival) {
            Err(error) => Multiplexer { halted: Some(error), ..self },
            Ok(_) => match arrival {
                Arrival::Consumer(consumer) => Multiplexer { consumer, ..self },
                _ => self,
            },
        }
    }

    /// The relay after all of `arrivals`, taken up in order.
    pub open spec fn after_all(self, arrivals: Seq<Arrival<C>>) -> Self
        decreases arrivals.len(),
    {
        if arrivals.len() == 0 {
            self
        } else {
            self.after_all(arrivals.drop_last()).after(arrivals.last())
        }
    }

    /// The delivery that the arrival at position `at` of `arrivals` leads
    /// to, if it leads to one.
    pub open spec fn delivery_at(self, arrivals: Seq<Arrival<C>>, at: int) -> Option<Delivery<C>> {
        let relay = self.after_all(arrivals.take(at));
        match relay.outcome(arrivals[at]) {
            Ok(Some(event)) => Some(Delivery { consumer: relay.after(arrivals[at]).consumer, event }),
            _ => None,
        }
    }

    /// A relay for the node `identity`, forwarding to `consumer`. There is no
    /// relay before the first consumer has registered.
    pub fn new(identity: PublicKey, consumer: C) -> (relay: Self)
        ensures
            relay == (Multiplexer { identity, consumer, halted: None }),
    {
        Multiplexer { identity, consumer, halted: None }
    }

    /// The consumer to which the next event goes.
    pub fn consumer(&self) -> (consumer: &C)
        ensures
            *consumer == self.consumer,
    {
        &self.consumer
    }

    /// Takes up one arrival. `Ok(Some(event))` is to be sent to the consumer
    /// that is in place after the call; `Err` ends the relay for good.
    pub fn step(&mut self, arrival: Arrival<C>) -> (r: Result<Option<ChannelEvent>, RelayError>)
        ensures
            r == old(self).outcome(arrival),
            *final(self) == old(self).after(arrival),
    {
        if let Some(error) = self.halted {
            return Err(error);
        }
        let r = match arrival {
            Arrival::System(event) => Ok(Some(ChannelEvent::SystemEvent(event))),
            Arrival::Network(FromNetwork::GossipMessage { bytes, delivered_from }) => {
                match attribute(decode(bytes.as_slice()), delivered_from) {
                    Ok(event) => Ok(Some(event)),
                    Err(error) => Err(error),
                }
            },
            Arrival::Network(FromNetwork::SyncMessage { .. }) => Err(
                RelayError::UnexpectedSyncMessage,
            ),
            Arrival::Local { timestamp, sample_index } => Ok(
                Some(
                    ChannelEvent::ApplicationMessage(
                        ApplicationMessage { public_key: self.identity, timestamp, sample_index },
                    ),
                ),
            ),
            Arrival::Consumer(consumer) => {
                self.consumer = consumer;
                Ok(None)
            },
        };
        if let Err(error) = r {
            self.halted = Some(error);
        }
        r
    }

    /// Records that the consumer could not be reached, which ends the relay
    /// unless it had already stopped.
    pub fn forward_failed(&mut self) -> (error: RelayError)
        ensures
            error == old(self).halted.unwrap_or(RelayError::ConsumerUnreachable),
            *final(self) == (Multiplexer { halted: Some(error), ..*old(self) }),
    {
        let error = match self.halted {
            Some(error) => error,
            None => RelayError::ConsumerUnreachable,
        };
        self.halted = Some(error);
        error
    }
}

/// As long as the relay runs, its consumer is the one that registered last.
pub proof fn lemma_consumer_in_place<C>(start: Multiplexer<C>, arrivals: Seq<Arrival<C>>)
    ensures
        start.after_all(arrivals).identity == start.identity,
        start.halted is Some ==> start.after_all(arrivals) == start,
        start.after_all(arrivals).halted is None ==> start.after_all(arrivals).consumer
            == registered_before(start.consumer, arrivals, arrivals.len() as int),
    decreases arrivals.len(),
{
    if arrivals.len() > 0 {
        let earlier = arrivals.drop_last();
        lemma_consumer_in_place(start, earlier);
        assert(arrivals.take(earlier.len() as int) =~= earlier.take(earlier.len() as int));
        lemma_registered_before_prefix(start.consumer, arrivals, earlier, earlier.len() as int);
    }
}

/// Who is in place at a position depends on the arrivals before it alone.
pub proof fn lemma_registered_before_prefix<C>(
    first: C,
    arrivals: Seq<Arrival<C>>,
    others: Seq<Arrival<C>>,
    at: int,
)
    requires
        0 <= at <= arrivals.len(),
        at <= others.len(),
        arrivals.take(at) == others.take(at),
    ensures
        registered_before(first, arrivals, at) == registered_before(first, others, at),
    decreases at,
{
    if at > 0 {
        assert(arrivals[at - 1] == arrivals.take(at)[at - 1]);
        assert(others[at - 1] == others.take(at)[at - 1]);
        assert(arrivals.take(at - 1) == arrivals.take(at).take(at - 1));
        assert(others.take(at - 1) == others.take(at).take(at - 1));
        lemma_registered_before_prefix(first, arrivals, others, at - 1);
    }
}

/// The consumer that registered last before a position is the one whose
/// registration no other registration follows up to there; where none
/// registered, it is the first consumer.
pub proof fn lemma_registered_before_is_latest<C>(
    first: C,
    arrivals: Seq<Arrival<C>>,
    at: int,
)
    requires
        0 <= at <= arrivals.len(),
    ensures
        (forall|i: int| 0 <= i < at ==> !(#[trigger] arrivals[i] is Consumer))
            ==> registered_before(first, arrivals, at) == first,
        forall|j: int|
            0 <= j < at && #[trigger] arrivals[j] is Consumer && (forall|i: int|
                j < i < at ==> !(#[trigger] arrivals[i] is Consumer)) ==> registered_before(
                first,
                arrivals,
                at,
            ) == arrivals[j]->Consumer_0,
    decreases at,
{
    if at > 0 {
        lemma_registered_before_is_latest(first, arrivals, at - 1);
        if !(arrivals[at - 1] is Consumer) {
            assert forall|j: int|
                0 <= j < at && #[trigger] arrivals[j] is Consumer && (forall|i: int|
                    j < i < at ==> !(#[trigger] arrivals[i] is Consumer)) implies registered_before(
                first,
                arrivals,
                at,
            ) == arrivals[j]->Consumer_0 by {
                assert(j < at - 1);
                assert(forall|i: int| j < i < at - 1 ==> !(#[trigger] arrivals[i] is Consumer));
            }
        }
    }
}

/// Every event goes to the consumer that registered last before the event
/// arrived, whatever registers afterwards: a consumer never receives what
/// arrived before it registered, nor what arrives after another took its
/// place.
pub proof fn lemma_latest_consumer_receives<C>(
    start: Multiplexer<C>,
    arrivals: Seq<Arrival<C>>,
    at: int,
    later: Seq<Arrival<C>>,
)
    requires
        0 <= at < arrivals.len(),
        start.delivery_at(arrivals, at) is Some,
    ensures
        start.delivery_at(arrivals, at)->0.consumer == registered_before(
            start.consumer,
            arrivals,
            at,
        ),
        start.delivery_at(arrivals.take(at + 1) + later, at) == start.delivery_at(arrivals, at),
{
    let earlier = arrivals.take(at);
    lemma_consumer_in_place(start, earlier);
    assert(earlier.take(at) =~= earlier);
    lemma_registered_before_prefix(start.consumer, arrivals, earlier, at);
    let other = arrivals.take(at + 1) + later;
    assert(other.take(at) =~= earlier);
    assert(other[at] == arrivals[at]);
}

/// Nothing is dropped: as long as the relay runs, every arrival but the
/// registration of a consumer leads to a delivery. A status notification is
/// delivered as it came, and a local sample under the key of this node.
pub proof fn lemma_nothing_dropped<C>(start: Multiplexer<C>, arrivals: Seq<Arrival<C>>, at: int)
    requires
        0 <= at < arrivals.len(),
        start.after_all(arrivals.take(at + 1)).halted is None,
    ensures
        start.delivery_at(arrivals, at) is Some <==> !(arrivals[at] is Consumer),
        arrivals[at] matches Arrival::System(event) ==> start.delivery_at(arrivals, at)->0.event
            == ChannelEvent::SystemEvent(event),
        arrivals[at] matches Arrival::Local { timestamp, sample_index } ==> start.delivery_at(
            arrivals,
            at,
        )->0.event == ChannelEvent::ApplicationMessage(
            ApplicationMessage { public_key: start.identity, timestamp, sample_index },
        ),
{
    let taken = arrivals.take(at + 1);
    assert(taken.drop_last() =~= arrivals.take(at));
    assert(taken.last() == arrivals[at]);
    lemma_consumer_in_place(start, arrivals.take(at));
}

/// A running relay stops on nothing but a message from the network: status
/// notifications, a failed synchronization among them, are passed on like
/// any other event, and so are local samples.
pub proof fn lemma_only_network_messages_stop<C>(start: Multiplexer<C>, arrival: Arrival<C>)
    requires
        start.halted is None,
        start.after(arrival).halted is Some,
    ensures
        arrival is Network,
        start.outcome(arrival) is Err,
{
}

/// A relay that has stopped delivers nothing more.
pub proof fn lemma_halted_delivers_nothing<C>(
    start: Multiplexer<C>,
    arrivals: Seq<Arrival<C>>,
    at: int,
)
    requires
        0 <= at < arrivals.len(),
        start.halted is Some,
    ensures
        start.delivery_at(arrivals, at) is None,
{
    lemma_consumer_in_place(start, arrivals.take(at));
}

} // verus!

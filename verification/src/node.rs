//! What a node is set up with, and what publishing a sample hands out.

use vstd::prelude::*;
use p2panda_core::PublicKey;
use crate::codec::{decoded, encode, lemma_round_trip, pair_decoding, pair_encoding};
use crate::messages::{ApplicationMessage, ChannelEvent};
use crate::multiplexer::{relayed, Arrival, FromNetwork};
use crate::topic::{app_topic, app_topic_bytes, AppTopic};

verus! {

/// The pause between two background synchronizations with a known peer, in
/// seconds.
pub const RESYNC_INTERVAL: u64 = 10;

/// How many items the queue of registering consumers holds, and likewise the
/// queue of locally published samples.
pub const QUEUE_CAPACITY: usize = 32;

/// What the overlay connection of a node is opened with.
#[derive(Debug, Clone, Copy)]
pub struct NodeConfig {
    /// The network that the node joins; nodes of other networks stay unseen.
    pub network_id: [u8; 32],
    /// The topic that the node subscribes to.
    pub topic: AppTopic,
    /// See [`RESYNC_INTERVAL`].
    pub resync_interval: u64,
    /// See [`QUEUE_CAPACITY`].
    pub queue_capacity: usize,
}

/// The identifier of the one network of this application: thirty-two zero
/// bytes.
pub open spec fn network_id_bytes() -> Seq<u8> {
    Seq::new(32, |i: int| 0u8)
}

/// The network that all nodes of this application join.
pub fn network_id() -> (id: [u8; 32])
    ensures
        id@ == network_id_bytes(),
{
    [0u8; 32]
}

/// The settings of every node of this application.
pub fn node_config() -> (config: NodeConfig)
    ensures
        config.network_id@ == network_id_bytes(),
        config.topic.0@ == app_topic_bytes(),
        config.resync_interval == RESYNC_INTERVAL,
        config.queue_capacity == QUEUE_CAPACITY,
{
    NodeConfig {
        network_id: network_id(),
        topic: app_topic(),
        resync_interval: RESYNC_INTERVAL,
        queue_capacity: QUEUE_CAPACITY,
    }
}

/// What publishing a sample hands out: the sample for the local consumer,
/// and its payload for the gossip topic.
#[derive(Debug)]
pub struct Publication {
    pub local: (u64, u16),
    pub wire: Vec<u8>,
}

/// Prepares a sample for publication: both the local echo and the payload
/// for the network carry `timestamp` and `sample_index` as given.
pub fn publish(timestamp: u64, sample_index: u16) -> (publication: Publication)
    ensures
        publication.local == (timestamp, sample_index),
        publication.wire@ == pair_encoding(timestamp, sample_index),
{
    Publication { local: (timestamp, sample_index), wire: encode(timestamp, sample_index) }
}

/// A published sample reaches the consumer of the publishing node and, by
/// its payload, the consumer of any node to which the publisher delivers it,
/// with the same timestamp and the same sample index and under the
/// publisher's key.
pub proof fn lemma_published_values_agree<C>(
    publisher: PublicKey,
    receiver: PublicKey,
    timestamp: u64,
    sample_index: u16,
    publication: Publication,
)
    requires
        publication.local == (timestamp, sample_index),
        publication.wire@ == pair_encoding(timestamp, sample_index),
    ensures
        pair_decoding(publication.wire@) == Some(publication.local),
        relayed::<C>(
            publisher,
            Arrival::Local { timestamp: publication.local.0, sample_index: publication.local.1 },
        ) == Ok::<Option<ChannelEvent>, crate::multiplexer::RelayError>(
            Some(
                ChannelEvent::ApplicationMessage(
                    ApplicationMessage { public_key: publisher, timestamp, sample_index },
                ),
            ),
        ),
        relayed::<C>(
            receiver,
            Arrival::Network(
                FromNetwork::GossipMessage { bytes: publication.wire, delivered_from: publisher },
            ),
        ) == Ok::<Option<ChannelEvent>, crate::multiplexer::RelayError>(
            Some(
                ChannelEvent::ApplicationMessage(
                    ApplicationMessage { public_key: publisher, timestamp, sample_index },
                ),
            ),
        ),
{
    lemma_round_trip(timestamp, sample_index);
    assert(decoded(pair_decoding(publication.wire@)) == Ok::<
        (u64, u16),
        crate::codec::PayloadError,
    >((timestamp, sample_index)));
}

} // verus!

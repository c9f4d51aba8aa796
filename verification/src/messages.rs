//! What the node delivers to its consumer.

use vstd::prelude::*;
use p2panda_core::PublicKey;
use crate::topic::AppTopic;

verus! {

/// `p2panda_core::PublicKey`, the public half of a peer's identity. The node
/// attaches keys to events and never looks into one.
#[verifier::external_type_specification]
#[verifier::external_body]
pub struct ExPublicKey(p2panda_core::PublicKey);

/// `Clone::clone` of `p2panda_core::PublicKey`, a `Copy` type whose `Clone`
/// is derived: the clone is the key itself.
pub assume_specification[ <p2panda_core::PublicKey as Clone>::clone ](
    key: &p2panda_core::PublicKey,
) -> (copy: p2panda_core::PublicKey)
    ensures
        copy == *key,
;

/// A sample published by a peer, attributed to that peer.
#[derive(Debug, Clone)]
pub struct ApplicationMessage {
    pub public_key: PublicKey,
    pub timestamp: u64,
    pub sample_index: u16,
}

/// A status notification of the overlay.
#[derive(Debug, Clone)]
#[allow(inconsistent_fields)]
pub enum SystemEvent {
    /// The node joined the gossip overlay of a topic, which has these
    /// members.
    GossipJoined { topic_id: [u8; 32], peers: Vec<PublicKey> },
    /// The node left the gossip overlay of a topic.
    GossipLeft { topic_id: [u8; 32] },
    /// A peer became a direct neighbor in the overlay of a topic.
    GossipNeighborUp { topic_id: [u8; 32], peer: PublicKey },
    /// A direct neighbor in the overlay of a topic was lost.
    GossipNeighborDown { topic_id: [u8; 32], peer: PublicKey },
    /// A peer was found on the network.
    PeerDiscovered { peer: PublicKey },
    /// A synchronization session with a peer began. The accepting side does
    /// not know the topic yet.
    SyncStarted { topic: Option<AppTopic>, peer: PublicKey },
    /// A synchronization session with a peer completed.
    SyncDone { topic: AppTopic, peer: PublicKey },
    /// A synchronization session with a peer failed, possibly before its
    /// topic was known.
    SyncFailed { topic: Option<AppTopic>, peer: PublicKey },
}

/// An event on its way to the consumer.
#[derive(Debug, Clone)]
pub enum ChannelEvent {
    /// A sample, published here or received over the gossip overlay.
    ApplicationMessage(ApplicationMessage),
    /// A status notification of the overlay, passed on as it came.
    SystemEvent(SystemEvent),
}

/// The value of one field of a record.
#[derive(Debug, Clone)]
pub enum FieldValue {
    /// The name of a variant.
    Label(&'static str),
    /// The time of a sample.
    Timestamp(u64),
    /// The position of a sample.
    SampleIndex(u16),
    /// The identifier of a gossip topic.
    TopicId([u8; 32]),
    /// The topic of a synchronization session.
    Topic(AppTopic),
    /// The topic of a synchronization session, where it is known.
    MaybeTopic(Option<AppTopic>),
    /// One peer.
    Peer(PublicKey),
    /// The members of an overlay.
    Peers(Vec<PublicKey>),
    /// An application message, itself a record as
    /// [`ApplicationMessage::record`] gives it.
    Message(ApplicationMessage),
    /// A system event, itself a record as [`SystemEvent::record`] gives it.
    Event(SystemEvent),
}

/// A named field of a record.
#[derive(Debug, Clone)]
pub struct Field {
    pub name: &'static str,
    pub value: FieldValue,
}

/// The shape in which an event reaches the consumer: a named structure and
/// its fields in the order in which they are written.
#[derive(Debug, Clone)]
pub struct Record {
    pub name: &'static str,
    pub fields: Vec<Field>,
}

impl ApplicationMessage {
    /// The fields of the record of this message.
    pub open spec fn record_fields(self) -> Seq<Field> {
        seq![
            Field { name: "public_key", value: FieldValue::Peer(self.public_key) },
            Field { name: "timestamp", value: FieldValue::Timestamp(self.timestamp) },
            Field { name: "sample_index", value: FieldValue::SampleIndex(self.sample_index) },
        ]
    }

    /// The record of this message: a structure named `ApplicationMessage`
    /// that holds the sender's key, the timestamp and the sample index.
    pub fn record(self) -> (record: Record)
        ensures
            record.name == "ApplicationMessage",
            record.fields@ == self.record_fields(),
    {
        let fields = vec![
            Field { name: "public_key", value: FieldValue::Peer(self.public_key) },
            Field { name: "timestamp", value: FieldValue::Timestamp(self.timestamp) },
            Field { name: "sample_index", value: FieldValue::SampleIndex(self.sample_index) },
        ];
        Record { name: "ApplicationMessage", fields }
    }
}

impl SystemEvent {
    /// The name of the variant, which the record carries as its `type`.
    pub open spec fn variant_name(self) -> &'static str {
        match self {
            SystemEvent::GossipJoined { .. } => "GossipJoined",
            SystemEvent::GossipLeft { .. } => "GossipLeft",
            SystemEvent::GossipNeighborUp { .. } => "GossipNeighborUp",
            SystemEvent::GossipNeighborDown { .. } => "GossipNeighborDown",
            SystemEvent::PeerDiscovered { .. } => "PeerDiscovered",
            SystemEvent::SyncStarted { .. } => "SyncStarted",
            SystemEvent::SyncDone { .. } => "SyncDone",
            SystemEvent::SyncFailed { .. } => "SyncFailed",
        }
    }

    /// The fields that follow the `type`: the topic first, where the event
    /// has one, then the peer or the peers. Gossip events name their topic
    /// `topic_id`, synchronization events `topic`.
    pub open spec fn detail_fields(self) -> Seq<Field> {
        match self {
            SystemEvent::GossipJoined { topic_id, peers } => seq![
                Field { name: "topic_id", value: FieldValue::TopicId(topic_id) },
                Field { name: "peers", value: FieldValue::Peers(peers) },
            ],
            SystemEvent::GossipLeft { topic_id } => seq![
                Field { name: "topic_id", value: FieldValue::TopicId(topic_id) },
            ],
            SystemEvent::GossipNeighborUp { topic_id, peer } => seq![
                Field { name: "topic_id", value: FieldValue::TopicId(topic_id) },
                Field { name: "peer", value: FieldValue::Peer(peer) },
            ],
            SystemEvent::GossipNeighborDown { topic_id, peer } => seq![
                Field { name: "topic_id", value: FieldValue::TopicId(topic_id) },
                Field { name: "peer", value: FieldValue::Peer(peer) },
            ],
            SystemEvent::PeerDiscovered { peer } => seq![
                Field { name: "peer", value: FieldValue::Peer(peer) },
            ],
            SystemEvent::SyncStarted { topic, peer } => seq![
                Field { name: "topic", value: FieldValue::MaybeTopic(topic) },
                Field { name: "peer", value: FieldValue::Peer(peer) },
            ],
            SystemEvent::SyncDone { topic, peer } => seq![
                Field { name: "topic", value: FieldValue::Topic(topic) },
                Field { name: "peer", value: FieldValue::Peer(peer) },
            ],
            SystemEvent::SyncFailed { topic, peer } => seq![
                Field { name: "topic", value: FieldValue::MaybeTopic(topic) },
                Field { name: "peer", value: FieldValue::Peer(peer) },
            ],
        }
    }

    /// The fields of the record of this event.
    pub open spec fn record_fields(self) -> Seq<Field> {
        seq![Field { name: "type", value: FieldValue::Label(self.variant_name()) }]
            + self.detail_fields()
    }

    /// The record of this event: a structure named `SystemEvent` that holds
    /// the variant's name under `type` and then the variant's own fields.
    pub fn record(self) -> (record: Record)
        ensures
            record.name == "SystemEvent",
            record.fields@ == self.record_fields(),
    {
        let fields = match self {
            SystemEvent::GossipJoined { topic_id, peers } => vec![
                Field { name: "type", value: FieldValue::Label("GossipJoined") },
                Field { name: "topic_id", value: FieldValue::TopicId(topic_id) },
                Field { name: "peers", value: FieldValue::Peers(peers) },
            ],
            SystemEvent::GossipLeft { topic_id } => vec![
                Field { name: "type", value: FieldValue::Label("GossipLeft") },
                Field { name: "topic_id", value: FieldValue::TopicId(topic_id) },
            ],
            SystemEvent::GossipNeighborUp { topic_id, peer } => vec![
                Field { name: "type", value: FieldValue::Label("GossipNeighborUp") },
                Field { name: "topic_id", value: FieldValue::TopicId(topic_id) },
                Field { name: "peer", value: FieldValue::Peer(peer) },
            ],
            SystemEvent::GossipNeighborDown { topic_id, peer } => vec![
                Field { name: "type", value: FieldValue::Label("GossipNeighborDown") },
                Field { name: "topic_id", value: FieldValue::TopicId(topic_id) },
                Field { name: "peer", value: FieldValue::Peer(peer) },
            ],
            SystemEvent::PeerDiscovered { peer } => vec![
                Field { name: "type", value: FieldValue::Label("PeerDiscovered") },
                Field { name: "peer", value: FieldValue::Peer(peer) },
            ],
            SystemEvent::SyncStarted { topic, peer } => vec![
                Field { name: "type", value: FieldValue::Label("SyncStarted") },
                Field { name: "topic", value: FieldValue::MaybeTopic(topic) },
                Field { name: "peer", value: FieldValue::Peer(peer) },
            ],
            SystemEvent::SyncDone { topic, peer } => vec![
                Field { name: "type", value: FieldValue::Label("SyncDone") },
                Field { name: "topic", value: FieldValue::Topic(topic) },
                Field { name: "peer", value: FieldValue::Peer(peer) },
            ],
            SystemEvent::SyncFailed { topic, peer } => vec![
                Field { name: "type", value: FieldValue::Label("SyncFailed") },
                Field { name: "topic", value: FieldValue::MaybeTopic(topic) },
                Field { name: "peer", value: FieldValue::Peer(peer) },
            ],
        };
        Record { name: "SystemEvent", fields }
    }
}

impl ChannelEvent {
    /// The fields of the record of this event.
    pub open spec fn record_fields(self) -> Seq<Field> {
        match self {
            ChannelEvent::ApplicationMessage(message) => seq![
                Field { name: "type", value: FieldValue::Label("ApplicationMessage") },
                Field { name: "data", value: FieldValue::Message(message) },
            ],
            ChannelEvent::SystemEvent(event) => seq![
                Field { name: "type", value: FieldValue::Label("SystemEvent") },
                Field { name: "data", value: FieldValue::Event(event) },
            ],
        }
    }

    /// The record of this event: a structure named `ChannelEvent` that tells
    /// under `type` which of the two it is and holds the event under `data`.
    pub fn record(self) -> (record: Record)
        ensures
            record.name == "ChannelEvent",
            record.fields@ == self.record_fields(),
    {
        let fields = match self {
            ChannelEvent::ApplicationMessage(message) => vec![
                Field { name: "type", value: FieldValue::Label("ApplicationMessage") },
                Field { name: "data", value: FieldValue::Message(message) },
            ],
            ChannelEvent::SystemEvent(event) => vec![
                Field { name: "type", value: FieldValue::Label("SystemEvent") },
                Field { name: "data", value: FieldValue::Event(event) },
            ],
        };
        Record { name: "ChannelEvent", fields }
    }
}

} // verus!

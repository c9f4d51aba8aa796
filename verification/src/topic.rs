//! The overlay channel that every node of a deployment joins.

use vstd::prelude::*;

verus! {

/// A 32-byte identifier naming an overlay channel.
#[derive(Clone, Copy, Debug, PartialEq, Eq, Hash)]
pub struct AppTopic(pub [u8; 32]);

impl AppTopic {
    /// The identifier under which the gossip overlay knows this topic.
    pub fn id(&self) -> (id: [u8; 32])
        ensures
            id == self.0,
    {
        self.0
    }
}

/// The one topic of this application: thirty-two bytes of value 1.
pub open spec fn app_topic_bytes() -> Seq<u8> {
    Seq::new(32, |i: int| 1u8)
}

/// The well-known topic that all nodes subscribe to.
pub fn app_topic() -> (topic: AppTopic)
    ensures
        topic.0@ == app_topic_bytes(),
{
    AppTopic([1u8; 32])
}

} // verus!

//! A single peer of a local peer-to-peer application: the wire codec of its
//! messages, the pairwise synchronization handshake, and the relay that
//! forwards overlay and application events to one consumer at a time.

pub mod codec;
pub mod messages;
pub mod multiplexer;
pub mod node;
pub mod sync;
pub mod topic;

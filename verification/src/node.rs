//! A node of the distributed system: one participant that owns a clock,
//! stamps the messages it sends and merges the timestamps it receives.

use vstd::prelude::*;

use crate::clock::HybridLogicalClock;
use crate::model::{advanced, ts_lt};

verus! {

/// `std::sync::mpsc::Sender` carried opaquely: the node holds the sending
/// half of the channel its messages leave on, and the surrounding harness
/// does the actual sending.
#[verifier::external_type_specification]
#[verifier::external_body]
#[verifier::reject_recursive_types(T)]
pub struct ExSender<T>(std::sync::mpsc::Sender<T>);

/// A message between nodes: who sent it, whom it is for, and the sender's
/// clock snapshot taken when it was sent.
#[derive(Clone, Debug)]
pub struct Message {
    pub sender_id: u32,
    pub target_id: u32,
    pub timestamp: HybridLogicalClock,
}

/// A participant in the distributed system: an identity, its own hybrid
/// logical clock, and the sending half of the message channel.
pub struct Node {
    pub id: u32,
    pub clock: HybridLogicalClock,
    pub sender: std::sync::mpsc::Sender<Message>,
}

impl Node {
    /// Create a node with a fresh clock set to the current wall-clock time.
    pub fn new(id: u32, sender: std::sync::mpsc::Sender<Message>) -> (n: Node)
        ensures
            n.id == id,
            n.clock.logical_counter == 0,
            n.sender == sender,
    {
        Node { id, clock: HybridLogicalClock::new(), sender }
    }

    /// Advance the clock for the send event and stamp an outgoing message
    /// for `target_id` with the resulting timestamp.
    pub fn make_message(&mut self, target_id: u32) -> (m: Message)
        requires
            old(self).clock.logical_counter < u64::MAX,
        ensures
            final(self).id == old(self).id,
            final(self).sender == old(self).sender,
            m.sender_id == old(self).id,
            m.target_id == target_id,
            m.timestamp == final(self).clock,
            exists|now: int|
                final(self).clock.timestamp() == advanced(old(self).clock.timestamp(), now),
            ts_lt(old(self).clock.timestamp(), final(self).clock.timestamp()),
    {
        self.clock.increment();
        Message { sender_id: self.id, target_id, timestamp: self.clock.clone() }
    }
}

} // verus!

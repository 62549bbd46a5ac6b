use std::sync::mpsc;

use hlc::node::{Message, Node};
use hlc::HybridLogicalClock;

#[test]
fn node_new_sets_id_and_fresh_clock() {
    let (tx, _rx) = mpsc::channel::<Message>();
    let node = Node::new(7, tx);
    assert_eq!(node.id, 7);
    assert_eq!(node.clock.get_time().1, 0);
}

#[test]
fn make_message_stamps_with_advanced_clock() {
    let (tx, _rx) = mpsc::channel::<Message>();
    let mut node = Node::new(1, tx);
    node.clock = HybridLogicalClock { physical_time: 300, logical_counter: 4 };
    let before = node.clock.get_time();
    let msg = node.make_message(2);
    assert_eq!(msg.sender_id, 1);
    assert_eq!(msg.target_id, 2);
    assert_eq!(msg.timestamp.get_time(), node.clock.get_time());
    assert!(before < node.clock.get_time());
}

#[test]
fn message_travels_through_the_channel() {
    let (tx, rx) = mpsc::channel::<Message>();
    let mut node = Node::new(1, tx);
    let msg = node.make_message(2);
    let stamped = msg.timestamp.get_time();
    node.sender.send(msg).expect("channel closed");
    let received = rx.recv().expect("channel closed");
    assert_eq!(received.sender_id, 1);
    assert_eq!(received.target_id, 2);
    assert_eq!(received.timestamp.get_time(), stamped);
}

#[test]
fn receiving_node_merges_past_the_message() {
    let (tx, rx) = mpsc::channel::<Message>();
    let mut sender_node = Node::new(1, tx.clone());
    let mut receiver_node = Node::new(2, tx);
    let msg = sender_node.make_message(2);
    sender_node.sender.send(msg).expect("channel closed");
    let received = rx.recv().expect("channel closed");
    let remote = received.timestamp.get_time();
    let merged = receiver_node.clock.update(&received.timestamp);
    assert!(remote < merged);
    assert_eq!(receiver_node.clock.get_time(), merged);
}

use easysplash::control::{socket_path, MessageSlot};
use easysplash::message::Message;

#[test]
fn second_message_is_backpressured_not_dropped_or_duplicated() {
    let mut slot = MessageSlot::new();

    // Two connections send the opcode in rapid succession: the first is
    // forwarded, the second is refused until the first is consumed.
    assert!(slot.offer(Message::Interrupt));
    assert!(!slot.offer(Message::Interrupt));

    // Exactly one delivery comes out.
    assert_eq!(slot.take(), Some(Message::Interrupt));
    assert_eq!(slot.take(), None);

    // Once consumed, the backpressured client's retry goes through.
    assert!(slot.offer(Message::Interrupt));
    assert_eq!(slot.take(), Some(Message::Interrupt));
}

#[test]
fn rendezvous_path_is_inside_the_runtime_directory() {
    assert_eq!(socket_path("/tmp/easysplash"), "/tmp/easysplash/ipc.socket");
}

use peer_pressure::domain::chat::Chat;
use peer_pressure::domain::message::{ChatMessage, DeliveryStatus, MessageContent, SentBy};
use peer_pressure::domain::peer::{Peer, PeerAddress};

#[test]
fn create_my_message_is_not_sent() {
    let msg = ChatMessage::create(SentBy::Me, MessageContent::Text("hi".into()));
    assert_eq!(msg.delivery_status(), &DeliveryStatus::NotSent);
}

#[test]
fn create_peer_message_is_sent() {
    let msg = ChatMessage::create(SentBy::Peer, MessageContent::Text("hi".into()));
    assert_eq!(msg.delivery_status(), &DeliveryStatus::Sent);
}

#[test]
fn mark_sent_transitions() {
    let mut msg = ChatMessage::create(SentBy::Me, MessageContent::Text("hi".into()));
    assert_eq!(msg.delivery_status(), &DeliveryStatus::NotSent);
    msg.mark_sent();
    assert_eq!(msg.delivery_status(), &DeliveryStatus::Sent);
}

#[test]
fn mark_sent_twice_keeps_sent_and_everything_else() {
    let mut msg = ChatMessage::create(SentBy::Me, MessageContent::Text("hello".into()));
    let id = *msg.id();
    msg.mark_sent();
    msg.mark_sent();
    assert_eq!(msg.delivery_status(), &DeliveryStatus::Sent);
    assert_eq!(*msg.id(), id);
    assert_eq!(msg.sent_by(), &SentBy::Me);
    assert_eq!(msg.content, MessageContent::Text("hello".into()));
}

#[test]
fn created_ids_are_version_four_uuids_and_differ() {
    let a = ChatMessage::create(SentBy::Me, MessageContent::Text("a".into()));
    let b = ChatMessage::create(SentBy::Me, MessageContent::Text("b".into()));
    assert_ne!(a.id(), b.id());
    for id in [*a.id(), *b.id()] {
        assert_eq!((id >> 76) & 0xf, 4);
        let variant = (id >> 60) & 0xf;
        assert!((8..12).contains(&variant));
    }
}

#[test]
fn new_message_keeps_its_parts() {
    let msg = ChatMessage::new(
        0x123e4567_e89b_12d3_a456_426614174000,
        SentBy::Peer,
        MessageContent::Text("x".into()),
        DeliveryStatus::NotSent,
    );
    assert_eq!(*msg.id(), 0x123e4567_e89b_12d3_a456_426614174000);
    assert_eq!(msg.sent_by(), &SentBy::Peer);
    assert_eq!(msg.content(), &MessageContent::Text("x".into()));
    assert_eq!(msg.delivery_status(), &DeliveryStatus::NotSent);
}

#[test]
fn chat_collects_messages_in_order() {
    let peer = PeerAddress::new("10.0.0.1".into());
    let mut chat = Chat::create(peer.clone());
    assert!(chat.messages.is_empty());
    chat.add_message(ChatMessage::create(SentBy::Me, MessageContent::Text("one".into())));
    chat.add_message(ChatMessage::create(SentBy::Peer, MessageContent::Text("two".into())));
    assert_eq!(chat.peer, peer);
    assert_eq!(chat.messages.len(), 2);
    assert_eq!(chat.messages[0].content, MessageContent::Text("one".into()));
    assert_eq!(chat.messages[1].content, MessageContent::Text("two".into()));
}

#[test]
fn peer_is_known_by_its_address() {
    let address = PeerAddress::new("peer1".into());
    let peer = Peer::new(address.clone());
    assert_eq!(peer.address(), address);
    assert_eq!(peer.id(), address);
    assert_eq!(address.as_str(), "peer1");
    assert_eq!(address.to_string(), "peer1".to_string());
    assert_ne!(address, PeerAddress::new("peer2".into()));
}

use peer_pressure::domain::chat::Chat;
use peer_pressure::domain::message::{ChatMessage, DeliveryStatus, MessageContent, SentBy};
use peer_pressure::domain::peer::{Peer, PeerAddress};
use peer_pressure::infrastructure::chat_store::ChatStore;
use peer_pressure::infrastructure::dtos::{
    ChatMessageDto, DeliveryStatusDto, MessageContentDto, MessageVecDto, PeerAddressDto, PeerDto,
    SentByDto,
};
use peer_pressure::infrastructure::peer_store::PeerStore;
use peer_pressure::infrastructure::wire_protocol::{
    content_of_wire_message, WireChatMessageContent, WireMessage,
};

fn sample() -> ChatMessage {
    ChatMessage::new(
        0x123e4567_e89b_12d3_a456_426614174000,
        SentBy::Me,
        MessageContent::Text("This is a test message".into()),
        DeliveryStatus::NotSent,
    )
}

#[test]
fn message_record_uses_hyphenated_id() {
    let d = ChatMessageDto::from(&sample());
    assert_eq!(d.id, "123e4567-e89b-12d3-a456-426614174000");
    assert!(matches!(d.content, MessageContentDto::Text(ref t) if t == "This is a test message"));
    assert!(d.sent_by == SentByDto::Me);
    assert!(d.delivery_status == DeliveryStatusDto::NotSent);
}

#[test]
fn message_record_reads_back() {
    let m = sample();
    let back = ChatMessage::try_from(ChatMessageDto::from(&m)).unwrap();
    assert_eq!(*back.id(), *m.id());
    assert_eq!(back.sent_by(), m.sent_by());
    assert_eq!(back.content, m.content);
    assert_eq!(back.delivery_status(), m.delivery_status());

    let fresh = ChatMessage::create(SentBy::Peer, MessageContent::Text("x".into()));
    let back = ChatMessage::try_from(ChatMessageDto::from(&fresh)).unwrap();
    assert_eq!(*back.id(), *fresh.id());
}

#[test]
fn message_record_with_bad_id_is_refused() {
    let d = ChatMessageDto {
        id: "not-a-uuid".into(),
        content: MessageContentDto::Text("x".into()),
        sent_by: SentByDto::Peer,
        delivery_status: DeliveryStatusDto::Sent,
    };
    assert!(ChatMessage::try_from(d).is_err());
    let upper = ChatMessageDto {
        id: "123E4567-E89B-12D3-A456-426614174000".into(),
        content: MessageContentDto::Text("x".into()),
        sent_by: SentByDto::Peer,
        delivery_status: DeliveryStatusDto::Sent,
    };
    assert_eq!(*ChatMessage::try_from(upper).unwrap().id(), 0x123e4567_e89b_12d3_a456_426614174000);
}

#[test]
fn message_list_reads_back_and_drops_bad_records() {
    let msgs = vec![sample(), ChatMessage::create(SentBy::Peer, MessageContent::Text("b".into()))];
    let mut dto = MessageVecDto::from(msgs.as_slice());
    assert_eq!(dto.messages.len(), 2);
    dto.messages.insert(
        1,
        ChatMessageDto {
            id: "garbage".into(),
            content: MessageContentDto::Text("lost".into()),
            sent_by: SentByDto::Me,
            delivery_status: DeliveryStatusDto::Sent,
        },
    );
    let back = dto.into_messages();
    assert_eq!(back.len(), 2);
    assert_eq!(*back[0].id(), *msgs[0].id());
    assert_eq!(*back[1].id(), *msgs[1].id());
    assert_eq!(back[1].content, MessageContent::Text("b".into()));
}

#[test]
fn chat_file_loads_into_store() {
    let mut chat = Chat::create(PeerAddress::new("1.2.3.4".into()));
    chat.add_message(sample());
    let dto = MessageVecDto::from(chat);
    let mut store = ChatStore::new();
    store.load_record("1.2.3.4".into(), dto);
    let got = store.get(&PeerAddress::new("1.2.3.4".into())).unwrap();
    assert_eq!(got.messages.len(), 1);
    assert_eq!(*got.messages[0].id(), *sample().id());
}

#[test]
fn peer_record_reads_back() {
    let p = Peer::new(PeerAddress::new("peer1".into()));
    let dto = PeerDto::from(p.clone());
    assert_eq!(dto.address.0, "peer1");
    let back = Peer::try_from(dto).unwrap();
    assert_eq!(back.address(), p.address());
    assert_eq!(PeerAddress::from(PeerAddressDto("z".into())), PeerAddress::new("z".into()));
    let mut store = PeerStore::new();
    store.load_record(PeerDto { address: PeerAddressDto("q".into()) });
    assert!(store.get(&PeerAddress::new("q".into())).is_some());
}

#[test]
fn record_enums_convert_both_ways() {
    assert!(SentBy::from(&SentByDto::from(&SentBy::Me)) == SentBy::Me);
    assert!(SentBy::from(&SentByDto::from(&SentBy::Peer)) == SentBy::Peer);
    assert!(DeliveryStatus::from(&DeliveryStatusDto::from(&DeliveryStatus::Sent)) == DeliveryStatus::Sent);
    assert!(
        DeliveryStatus::from(&DeliveryStatusDto::from(&DeliveryStatus::NotSent))
            == DeliveryStatus::NotSent
    );
    let c = MessageContent::Text("t".into());
    assert_eq!(MessageContent::from(MessageContentDto::from(c.clone())), c);
}

#[test]
fn wire_message_carries_id_and_content() {
    match WireMessage::from(&sample()) {
        WireMessage::ChatMessage(w) => {
            assert_eq!(w.id, "123e4567-e89b-12d3-a456-426614174000");
            assert!(matches!(w.content, WireChatMessageContent::Text(ref t) if t == "This is a test message"));
        }
    }
    let c = MessageContent::Text("round".into());
    assert_eq!(MessageContent::from(WireChatMessageContent::from(&c)), c);
    let received = content_of_wire_message(WireMessage::from(&sample()));
    assert_eq!(received, MessageContent::Text("This is a test message".into()));
}

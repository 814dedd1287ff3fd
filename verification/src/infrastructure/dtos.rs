use vstd::prelude::*;
use vstd::std_specs::convert::{FromSpecImpl, TryFromSpecImpl};
use crate::domain::chat::Chat;
use crate::domain::message::{
    id_text, message_id_text, parse_message_id, parsed_id, ChatMessage, DeliveryStatus,
    MessageContent, SentBy,
};
use crate::domain::peer::{Peer, PeerAddress};

verus! {

/// How a peer is written to its file.
pub struct PeerDto {
    pub address: PeerAddressDto,
}

pub struct PeerAddressDto(pub String);

/// How the messages of a chat are written to their file.
pub struct MessageVecDto {
    pub messages: Vec<ChatMessageDto>,
}

pub struct ChatMessageDto {
    pub id: String,
    pub content: MessageContentDto,
    pub sent_by: SentByDto,
    pub delivery_status: DeliveryStatusDto,
}

pub enum MessageContentDto {
    Text(String),
}

#[derive(Clone, Copy, PartialEq, Eq, Structural)]
pub enum SentByDto {
    Me,
    Peer,
}

#[derive(Clone, Copy, PartialEq, Eq, Structural)]
pub enum DeliveryStatusDto {
    Sent,
    NotSent,
}

pub open spec fn sent_by_record(v: SentBy) -> SentByDto {
    match v {
        SentBy::Me => SentByDto::Me,
        SentBy::Peer => SentByDto::Peer,
    }
}

pub open spec fn sent_by_of_record(v: SentByDto) -> SentBy {
    match v {
        SentByDto::Me => SentBy::Me,
        SentByDto::Peer => SentBy::Peer,
    }
}

pub open spec fn status_record(v: DeliveryStatus) -> DeliveryStatusDto {
    match v {
        DeliveryStatus::Sent => DeliveryStatusDto::Sent,
        DeliveryStatus::NotSent => DeliveryStatusDto::NotSent,
    }
}

pub open spec fn status_of_record(v: DeliveryStatusDto) -> DeliveryStatus {
    match v {
        DeliveryStatusDto::Sent => DeliveryStatus::Sent,
        DeliveryStatusDto::NotSent => DeliveryStatus::NotSent,
    }
}

pub open spec fn content_record(v: MessageContent) -> MessageContentDto {
    match v {
        MessageContent::Text(t) => MessageContentDto::Text(t),
    }
}

pub open spec fn content_of_record(v: MessageContentDto) -> MessageContent {
    match v {
        MessageContentDto::Text(t) => MessageContent::Text(t),
    }
}

impl From<&SentBy> for SentByDto {
    fn from(sent_by: &SentBy) -> (r: Self) {
        match sent_by {
            SentBy::Me => SentByDto::Me,
            SentBy::Peer => SentByDto::Peer,
        }
    }
}

impl FromSpecImpl<&SentBy> for SentByDto {
    open spec fn obeys_from_spec() -> bool {
        true
    }

    open spec fn from_spec(v: &SentBy) -> SentByDto {
        sent_by_record(*v)
    }
}

impl From<&SentByDto> for SentBy {
    fn from(sent_by_dto: &SentByDto) -> (r: Self) {
        match sent_by_dto {
            SentByDto::Me => SentBy::Me,
            SentByDto::Peer => SentBy::Peer,
        }
    }
}

impl FromSpecImpl<&SentByDto> for SentBy {
    open spec fn obeys_from_spec() -> bool {
        true
    }

    open spec fn from_spec(v: &SentByDto) -> SentBy {
        sent_by_of_record(*v)
    }
}

impl From<&DeliveryStatus> for DeliveryStatusDto {
    fn from(status: &DeliveryStatus) -> (r: Self) {
        match status {
            DeliveryStatus::Sent => DeliveryStatusDto::Sent,
            DeliveryStatus::NotSent => DeliveryStatusDto::NotSent,
        }
    }
}

impl FromSpecImpl<&DeliveryStatus> for DeliveryStatusDto {
    open spec fn obeys_from_spec() -> bool {
        true
    }

    open spec fn from_spec(v: &DeliveryStatus) -> DeliveryStatusDto {
        status_record(*v)
    }
}

impl From<&DeliveryStatusDto> for DeliveryStatus {
    fn from(dto: &DeliveryStatusDto) -> (r: Self) {
        match dto {
            DeliveryStatusDto::Sent => DeliveryStatus::Sent,
            DeliveryStatusDto::NotSent => DeliveryStatus::NotSent,
        }
    }
}

impl FromSpecImpl<&DeliveryStatusDto> for DeliveryStatus {
    open spec fn obeys_from_spec() -> bool {
        true
    }

    open spec fn from_spec(v: &DeliveryStatusDto) -> DeliveryStatus {
        status_of_record(*v)
    }
}

impl From<MessageContent> for MessageContentDto {
    fn from(content: MessageContent) -> (r: Self) {
        match content {
            MessageContent::Text(t) => MessageContentDto::Text(t),
        }
    }
}

impl FromSpecImpl<MessageContent> for MessageContentDto {
    open spec fn obeys_from_spec() -> bool {
        true
    }

    open spec fn from_spec(v: MessageContent) -> MessageContentDto {
        content_record(v)
    }
}

impl From<MessageContentDto> for MessageContent {
    fn from(content_dto: MessageContentDto) -> (r: Self) {
        match content_dto {
            MessageContentDto::Text(t) => MessageContent::Text(t),
        }
    }
}

impl FromSpecImpl<MessageContentDto> for MessageContent {
    open spec fn obeys_from_spec() -> bool {
        true
    }

    open spec fn from_spec(v: MessageContentDto) -> MessageContent {
        content_of_record(v)
    }
}

/// `d` is the record of `m`: the id as hyphenated lowercase text (which
/// reads back as the same id), the other parts as they are.
pub open spec fn records_message(d: ChatMessageDto, m: ChatMessage) -> bool {
    &&& d.id@ == id_text(m.spec_id())
    &&& parsed_id(d.id@) == Some(m.spec_id())
    &&& d.content == content_record(m.spec_content())
    &&& d.sent_by == sent_by_record(m.spec_sent_by())
    &&& d.delivery_status == status_record(m.spec_delivery_status())
}

impl From<&ChatMessage> for ChatMessageDto {
    fn from(chat_message: &ChatMessage) -> (r: Self)
        ensures
            records_message(r, *chat_message),
    {
        let id = message_id_text(*chat_message.id());
        let sent_by = SentByDto::from(chat_message.sent_by());
        let content = MessageContentDto::from(chat_message.content().clone());
        let delivery_status = DeliveryStatusDto::from(chat_message.delivery_status());
        Self { id, content, sent_by, delivery_status }
    }
}

/// The record's id is kept as text, so the conversion is described by the
/// `ensures` of `from`, not by a spec function of the record.
impl FromSpecImpl<&ChatMessage> for ChatMessageDto {
    open spec fn obeys_from_spec() -> bool {
        false
    }

    open spec fn from_spec(v: &ChatMessage) -> ChatMessageDto {
        arbitrary()
    }
}

/// The message a record stands for, if its id text parses.
pub open spec fn message_of_record(
    id: Option<u128>,
    content: MessageContentDto,
    sent_by: SentByDto,
    delivery_status: DeliveryStatusDto,
) -> Result<ChatMessage, ()> {
    match id {
        Some(id) => Ok(
            ChatMessage::spec_new(
                id,
                sent_by_of_record(sent_by),
                content_of_record(content),
                status_of_record(delivery_status),
            ),
        ),
        None => Err(()),
    }
}

impl TryFrom<ChatMessageDto> for ChatMessage {
    type Error = ();

    /// Fails exactly where the id text does not parse as a UUID.
    fn try_from(chat_message: ChatMessageDto) -> (r: Result<Self, Self::Error>)
        ensures
            r == message_of_record(
                parsed_id(chat_message.id@),
                chat_message.content,
                chat_message.sent_by,
                chat_message.delivery_status,
            ),
    {
        let id = match parse_message_id(chat_message.id.as_str()) {
            Some(id) => id,
            None => {
                return Err(());
            },
        };
        let sent_by = SentBy::from(&chat_message.sent_by);
        let content = MessageContent::from(chat_message.content);
        let delivery_status = DeliveryStatus::from(&chat_message.delivery_status);
        Ok(ChatMessage::new(id, sent_by, content, delivery_status))
    }
}

impl TryFromSpecImpl<ChatMessageDto> for ChatMessage {
    open spec fn obeys_try_from_spec() -> bool {
        true
    }

    open spec fn try_from_spec(v: ChatMessageDto) -> Result<ChatMessage, ()> {
        message_of_record(parsed_id(v.id@), v.content, v.sent_by, v.delivery_status)
    }
}

impl Clone for MessageContentDto {
    fn clone(&self) -> (r: Self)
        ensures
            r == *self,
    {
        match self {
            MessageContentDto::Text(t) => MessageContentDto::Text(t.clone()),
        }
    }
}

impl Clone for ChatMessageDto {
    fn clone(&self) -> (r: Self)
        ensures
            r == *self,
    {
        ChatMessageDto {
            id: self.id.clone(),
            content: self.content.clone(),
            sent_by: self.sent_by,
            delivery_status: self.delivery_status,
        }
    }
}

/// A record read back converts to the message it was written from.
pub proof fn record_reads_back(d: ChatMessageDto, m: ChatMessage)
    requires
        records_message(d, m),
    ensures
        message_of_record(parsed_id(d.id@), d.content, d.sent_by, d.delivery_status) == Ok::<
            ChatMessage,
            (),
        >(m),
{
    ChatMessage::lemma_spec_new(
        m.spec_id(),
        m.spec_sent_by(),
        m.spec_content(),
        m.spec_delivery_status(),
    );
    match m.spec_content() {
        MessageContent::Text(t) => {},
    }
}

/// The messages a list of records stands for, in order; a record whose id
/// does not parse is left out.
pub open spec fn readable_messages(records: Seq<ChatMessageDto>) -> Seq<ChatMessage>
    decreases records.len(),
{
    if records.len() == 0 {
        Seq::empty()
    } else {
        let rest = readable_messages(records.drop_last());
        let d = records.last();
        match message_of_record(parsed_id(d.id@), d.content, d.sent_by, d.delivery_status) {
            Ok(m) => rest.push(m),
            Err(_) => rest,
        }
    }
}

/// `records` holds the record of each of `messages`, in order.
pub open spec fn records_messages(records: Seq<ChatMessageDto>, messages: Seq<ChatMessage>) -> bool {
    &&& records.len() == messages.len()
    &&& forall|i: int| 0 <= i < records.len() ==> records_message(#[trigger] records[i], messages[i])
}

/// What is written is what is read: the records of a message list read back
/// as that list.
pub proof fn records_read_back(records: Seq<ChatMessageDto>, messages: Seq<ChatMessage>)
    requires
        records_messages(records, messages),
    ensures
        readable_messages(records) == messages,
    decreases records.len(),
{
    if records.len() > 0 {
        let n = records.len() - 1;
        assert(records_messages(records.drop_last(), messages.drop_last()));
        records_read_back(records.drop_last(), messages.drop_last());
        record_reads_back(records[n], messages[n]);
        assert(messages.drop_last().push(messages[n]) == messages);
    }
}

/// The records of a message list.
fn records_of(messages: &[ChatMessage]) -> (r: Vec<ChatMessageDto>)
    ensures
        records_messages(r@, messages@),
{
    let mut r: Vec<ChatMessageDto> = Vec::new();
    let mut i: usize = 0;
    while i < messages.len()
        invariant
            i <= messages@.len(),
            records_messages(r@, messages@.take(i as int)),
        decreases messages@.len() - i,
    {
        r.push(ChatMessageDto::from(&messages[i]));
        i = i + 1;
    }
    assert(messages@.take(i as int) == messages@);
    r
}

impl From<&[ChatMessage]> for MessageVecDto {
    fn from(messages: &[ChatMessage]) -> (r: Self)
        ensures
            records_messages(r.messages@, messages@),
    {
        Self { messages: records_of(messages) }
    }
}

/// The record list is described by the `ensures` of `from`.
impl FromSpecImpl<&[ChatMessage]> for MessageVecDto {
    open spec fn obeys_from_spec() -> bool {
        false
    }

    open spec fn from_spec(v: &[ChatMessage]) -> MessageVecDto {
        arbitrary()
    }
}

impl From<Chat> for MessageVecDto {
    fn from(value: Chat) -> (r: Self)
        ensures
            records_messages(r.messages@, value.messages@),
    {
        Self { messages: records_of(value.messages.as_slice()) }
    }
}

/// The record list is described by the `ensures` of `from`.
impl FromSpecImpl<Chat> for MessageVecDto {
    open spec fn obeys_from_spec() -> bool {
        false
    }

    open spec fn from_spec(v: Chat) -> MessageVecDto {
        arbitrary()
    }
}

impl MessageVecDto {
    /// The messages of the records that convert, in order (how a chat file is
    /// read: a record that does not convert is dropped).
    pub fn into_messages(self) -> (r: Vec<ChatMessage>)
        ensures
            r@ == readable_messages(self.messages@),
    {
        let mut r: Vec<ChatMessage> = Vec::new();
        let mut i: usize = 0;
        while i < self.messages.len()
            invariant
                i <= self.messages@.len(),
                r@ == readable_messages(self.messages@.take(i as int)),
            decreases self.messages@.len() - i,
        {
            let record = self.messages[i].clone();
            let converted = ChatMessage::try_from(record);
            proof {
                assert(self.messages@.take(i + 1).drop_last() == self.messages@.take(i as int));
            }
            match converted {
                Ok(m) => r.push(m),
                Err(_) => {},
            }
            i = i + 1;
        }
        assert(self.messages@.take(i as int) == self.messages@);
        r
    }
}

pub open spec fn address_record(v: PeerAddress) -> PeerAddressDto {
    PeerAddressDto(v.spec_text())
}

pub open spec fn address_of_record(v: PeerAddressDto) -> PeerAddress {
    PeerAddress::spec_new(v.0)
}

pub open spec fn peer_record(v: Peer) -> PeerDto {
    PeerDto { address: address_record(v.spec_address()) }
}

impl From<PeerAddress> for PeerAddressDto {
    fn from(value: PeerAddress) -> (r: Self) {
        PeerAddressDto(value.to_string())
    }
}

impl FromSpecImpl<PeerAddress> for PeerAddressDto {
    open spec fn obeys_from_spec() -> bool {
        true
    }

    open spec fn from_spec(v: PeerAddress) -> PeerAddressDto {
        address_record(v)
    }
}

impl From<PeerAddressDto> for PeerAddress {
    fn from(value: PeerAddressDto) -> (r: Self) {
        PeerAddress::new(value.0)
    }
}

impl FromSpecImpl<PeerAddressDto> for PeerAddress {
    open spec fn obeys_from_spec() -> bool {
        true
    }

    open spec fn from_spec(v: PeerAddressDto) -> PeerAddress {
        address_of_record(v)
    }
}

impl From<Peer> for PeerDto {
    fn from(peer: Peer) -> (r: Self) {
        Self { address: PeerAddressDto::from(peer.address()) }
    }
}

impl FromSpecImpl<Peer> for PeerDto {
    open spec fn obeys_from_spec() -> bool {
        true
    }

    open spec fn from_spec(v: Peer) -> PeerDto {
        peer_record(v)
    }
}

impl TryFrom<PeerDto> for Peer {
    type Error = ();

    /// Never fails.
    fn try_from(value: PeerDto) -> (r: Result<Self, Self::Error>) {
        let peer_address = PeerAddress::from(value.address);
        Ok(Peer::new(peer_address))
    }
}

impl TryFromSpecImpl<PeerDto> for Peer {
    open spec fn obeys_try_from_spec() -> bool {
        true
    }

    open spec fn try_from_spec(v: PeerDto) -> Result<Peer, ()> {
        Ok(Peer::spec_new(address_of_record(v.address)))
    }
}

/// A peer written to its record reads back as the same peer.
pub proof fn peer_reads_back(p: Peer)
    ensures
        Peer::spec_new(address_of_record(peer_record(p).address)) == p,
{
    Peer::lemma_spec_new(p.spec_address());
    p.spec_address().lemma_text(p.spec_address().spec_text());
}

} // verus!

use vstd::prelude::*;
use vstd::arithmetic::power::pow;

verus! {

/// A message identifier: the 128-bit value of a UUID, most significant
/// byte first (as `uuid::Uuid::as_u128` gives it).
pub type MessageId = u128;

/// The `k`-th hexadecimal digit (0 = most significant) of a 128-bit id.
pub open spec fn id_nibble(id: u128, k: int) -> int {
    (id as int / pow(16, (31 - k) as nat)) % 16
}

/// Lowercase hexadecimal digit for a value in `0..16`.
pub open spec fn hex_digit(d: int) -> char {
    seq!['0', '1', '2', '3', '4', '5', '6', '7', '8', '9', 'a', 'b', 'c', 'd', 'e', 'f'][d]
}

/// How many group separators precede position `i` of the hyphenated text.
pub open spec fn separators_before(i: int) -> int {
    (if i > 8 { 1int } else { 0int }) + (if i > 13 { 1int } else { 0int }) + (if i > 18 {
        1int
    } else {
        0int
    }) + (if i > 23 { 1int } else { 0int })
}

/// The hyphenated lowercase text of an id: 32 hex digits in groups of
/// 8-4-4-4-12, e.g. `123e4567-e89b-12d3-a456-426614174000`.
pub open spec fn id_text(id: u128) -> Seq<char> {
    Seq::new(
        36,
        |i: int|
            if i == 8 || i == 13 || i == 18 || i == 23 {
                '-'
            } else {
                hex_digit(id_nibble(id, i - separators_before(i)))
            },
    )
}

/// What `uuid::Uuid::parse_str` makes of a text, as the 128-bit value of the
/// UUID it reads, or `None` where it refuses the text.
pub uninterp spec fn parsed_id(text: Seq<char>) -> Option<u128>;

/// Calls `uuid::Uuid::new_v4`. Its value is random; of every outcome the
/// source shows only that the version digit is 4 and the variant digit is one
/// of 8, 9, a, b.
#[verifier::external_body]
fn fresh_message_id() -> (r: MessageId)
    ensures
        id_nibble(r, 12) == 4,
        8 <= id_nibble(r, 16) < 12,
{
    uuid::Uuid::new_v4().as_u128()
}

/// Calls `uuid::Uuid::from_u128(id).to_string()`. The contract claims that
/// `Display` for `Uuid` writes the hyphenated lowercase form of the value
/// (`fmt.rs`: `Display` defers to `LowerHex` on `as_hyphenated`), and that
/// `Uuid::parse_str` reads that text back as the same value (`parser.rs`
/// accepts the 36-character hyphenated form in either case).
#[verifier::external_body]
pub(crate) fn message_id_text(id: MessageId) -> (r: String)
    ensures
        r@ == id_text(id),
        parsed_id(r@) == Some(id),
{
    uuid::Uuid::from_u128(id).to_string()
}

/// Calls `uuid::Uuid::parse_str` and takes the parsed UUID's `as_u128`. The
/// contract names the result `parsed_id`; which texts it accepts (simple,
/// hyphenated, braced or URN forms, hex digits in either case) is not
/// stated.
#[verifier::external_body]
pub(crate) fn parse_message_id(text: &str) -> (r: Option<MessageId>)
    ensures
        r == parsed_id(text@),
{
    match uuid::Uuid::parse_str(text) {
        Ok(u) => Some(u.as_u128()),
        Err(_) => None,
    }
}

#[derive(Debug, Clone, Copy, PartialEq, Eq, Structural)]
pub enum DeliveryStatus {
    Sent,
    NotSent,
}

#[derive(Debug, Clone, Copy, PartialEq, Eq, Structural)]
pub enum SentBy {
    Me,
    Peer,
}

#[derive(Debug, PartialEq)]
pub enum MessageContent {
    Text(String),
}

impl View for MessageContent {
    type V = Seq<char>;

    open spec fn view(&self) -> Seq<char> {
        match self {
            MessageContent::Text(t) => t@,
        }
    }
}

impl Clone for MessageContent {
    fn clone(&self) -> (r: Self)
        ensures
            r == *self,
    {
        match self {
            MessageContent::Text(t) => MessageContent::Text(t.clone()),
        }
    }
}

/// The status a message starts with: a message of mine is not yet sent,
/// one from the peer has arrived.
pub open spec fn initial_status(sent_by: SentBy) -> DeliveryStatus {
    match sent_by {
        SentBy::Me => DeliveryStatus::NotSent,
        SentBy::Peer => DeliveryStatus::Sent,
    }
}

#[derive(Debug)]
pub struct ChatMessage {
    id: MessageId,
    sent_by: SentBy,
    pub content: MessageContent,
    delivery_status: DeliveryStatus,
}

impl ChatMessage {
    pub closed spec fn spec_id(&self) -> MessageId {
        self.id
    }

    pub closed spec fn spec_content(&self) -> MessageContent {
        self.content
    }

    pub closed spec fn spec_sent_by(&self) -> SentBy {
        self.sent_by
    }

    pub closed spec fn spec_delivery_status(&self) -> DeliveryStatus {
        self.delivery_status
    }

    /// A message of mine that still waits to be delivered.
    pub open spec fn is_pending(&self) -> bool {
        self.spec_sent_by() == SentBy::Me && self.spec_delivery_status() == DeliveryStatus::NotSent
    }

    /// The message with its status set to sent, everything else kept.
    pub closed spec fn marked_sent(self) -> ChatMessage {
        ChatMessage { delivery_status: DeliveryStatus::Sent, ..self }
    }

    pub proof fn lemma_marked_sent(self)
        ensures
            self.marked_sent().spec_id() == self.spec_id(),
            self.marked_sent().spec_sent_by() == self.spec_sent_by(),
            self.marked_sent().spec_content() == self.spec_content(),
            self.marked_sent().spec_delivery_status() == DeliveryStatus::Sent,
            self.spec_delivery_status() == DeliveryStatus::Sent ==> self.marked_sent() == self,
    {
    }

    /// The message with these parts.
    pub closed spec fn spec_new(
        id: MessageId,
        sent_by: SentBy,
        content: MessageContent,
        delivery_status: DeliveryStatus,
    ) -> ChatMessage {
        ChatMessage { id, sent_by, content, delivery_status }
    }

    pub proof fn lemma_spec_new(
        id: MessageId,
        sent_by: SentBy,
        content: MessageContent,
        delivery_status: DeliveryStatus,
    )
        ensures
            ({
                let m = ChatMessage::spec_new(id, sent_by, content, delivery_status);
                &&& m.spec_id() == id
                &&& m.spec_sent_by() == sent_by
                &&& m.spec_content() == content
                &&& m.spec_delivery_status() == delivery_status
            }),
            forall|m: ChatMessage|
                m == #[trigger] ChatMessage::spec_new(
                    m.spec_id(),
                    m.spec_sent_by(),
                    m.spec_content(),
                    m.spec_delivery_status(),
                ),
    {
    }

    pub fn new(
        id: MessageId,
        sent_by: SentBy,
        content: MessageContent,
        delivery_status: DeliveryStatus,
    ) -> (r: Self)
        ensures
            r == ChatMessage::spec_new(id, sent_by, content, delivery_status),
            r.spec_id() == id,
            r.spec_sent_by() == sent_by,
            r.spec_content() == content,
            r.spec_delivery_status() == delivery_status,
    {
        ChatMessage { id, sent_by, content, delivery_status }
    }

    /// A new message with a fresh random id (a version 4 UUID); see
    /// `initial_status`.
    pub fn create(sent_by: SentBy, content: MessageContent) -> (r: Self)
        ensures
            id_nibble(r.spec_id(), 12) == 4,
            8 <= id_nibble(r.spec_id(), 16) < 12,
            r.spec_sent_by() == sent_by,
            r.spec_content() == content,
            r.spec_delivery_status() == initial_status(sent_by),
    {
        let id = fresh_message_id();
        let delivery_status = match sent_by {
            SentBy::Me => DeliveryStatus::NotSent,
            SentBy::Peer => DeliveryStatus::Sent,
        };
        Self::new(id, sent_by, content, delivery_status)
    }

    pub fn sent_by(&self) -> (r: &SentBy)
        ensures
            *r == self.spec_sent_by(),
    {
        &self.sent_by
    }

    pub fn content(&self) -> (r: &MessageContent)
        ensures
            *r == self.spec_content(),
    {
        &self.content
    }

    pub fn id(&self) -> (r: &MessageId)
        ensures
            *r == self.spec_id(),
    {
        &self.id
    }

    pub fn delivery_status(&self) -> (r: &DeliveryStatus)
        ensures
            *r == self.spec_delivery_status(),
    {
        &self.delivery_status
    }

    pub fn mark_sent(&mut self)
        ensures
            *final(self) == old(self).marked_sent(),
    {
        self.delivery_status = DeliveryStatus::Sent;
    }
}

impl Clone for ChatMessage {
    fn clone(&self) -> (r: Self)
        ensures
            r == *self,
    {
        ChatMessage {
            id: self.id,
            sent_by: self.sent_by,
            content: self.content.clone(),
            delivery_status: self.delivery_status,
        }
    }
}

} // verus!

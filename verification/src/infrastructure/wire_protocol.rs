use vstd::prelude::*;
use vstd::std_specs::convert::FromSpecImpl;
use crate::domain::message::{id_text, message_id_text, ChatMessage, MessageContent};

verus! {

/// What travels between peers, one per frame.
pub enum WireMessage {
    ChatMessage(WireChatMessage),
}

pub struct WireChatMessage {
    pub id: String,
    pub content: WireChatMessageContent,
}

pub enum WireChatMessageContent {
    Text(String),
}

pub open spec fn wire_content(v: MessageContent) -> WireChatMessageContent {
    match v {
        MessageContent::Text(t) => WireChatMessageContent::Text(t),
    }
}

pub open spec fn content_of_wire(v: WireChatMessageContent) -> MessageContent {
    match v {
        WireChatMessageContent::Text(t) => MessageContent::Text(t),
    }
}

impl From<&MessageContent> for WireChatMessageContent {
    fn from(message_content: &MessageContent) -> (r: Self) {
        match message_content {
            MessageContent::Text(text) => Self::Text(text.clone()),
        }
    }
}

impl FromSpecImpl<&MessageContent> for WireChatMessageContent {
    open spec fn obeys_from_spec() -> bool {
        true
    }

    open spec fn from_spec(v: &MessageContent) -> WireChatMessageContent {
        wire_content(*v)
    }
}

impl From<WireChatMessageContent> for MessageContent {
    fn from(content: WireChatMessageContent) -> (r: Self) {
        match content {
            WireChatMessageContent::Text(t) => Self::Text(t),
        }
    }
}

impl FromSpecImpl<WireChatMessageContent> for MessageContent {
    open spec fn obeys_from_spec() -> bool {
        true
    }

    open spec fn from_spec(v: WireChatMessageContent) -> MessageContent {
        content_of_wire(v)
    }
}

impl From<&ChatMessage> for WireMessage {
    /// A message on the wire: its id as hyphenated lowercase text, and its
    /// content.
    fn from(value: &ChatMessage) -> (r: Self)
        ensures
            r matches WireMessage::ChatMessage(w) && w.id@ == id_text(value.spec_id())
                && w.content == wire_content(value.spec_content()),
    {
        Self::ChatMessage(
            WireChatMessage {
                id: message_id_text(*value.id()),
                content: WireChatMessageContent::from(value.content()),
            },
        )
    }
}

/// The wire message is described by the `ensures` of `from` (its id is
/// text).
impl FromSpecImpl<&ChatMessage> for WireMessage {
    open spec fn obeys_from_spec() -> bool {
        false
    }

    open spec fn from_spec(v: &ChatMessage) -> WireMessage {
        arbitrary()
    }
}

/// The content carried by a message that arrived.
pub fn content_of_wire_message(message: WireMessage) -> (r: MessageContent)
    ensures
        match message {
            WireMessage::ChatMessage(w) => r == content_of_wire(w.content),
        },
{
    match message {
        WireMessage::ChatMessage(wm) => MessageContent::from(wm.content),
    }
}

/// The content a peer receives is the content that was sent.
pub proof fn wire_content_round_trip(c: MessageContent)
    ensures
        content_of_wire(wire_content(c)) == c,
{
    match c {
        MessageContent::Text(t) => {},
    }
}

} // verus!

use vstd::prelude::*;
use crate::domain::message::ChatMessage;
use crate::domain::peer::PeerId;

verus! {

/// The conversation with one peer, oldest message first.
#[derive(Debug)]
pub struct Chat {
    pub peer: PeerId,
    pub messages: Vec<ChatMessage>,
}

/// A chat as a value: its peer and its messages in order.
pub struct ChatView {
    pub peer: PeerId,
    pub messages: Seq<ChatMessage>,
}

impl View for Chat {
    type V = ChatView;

    open spec fn view(&self) -> ChatView {
        ChatView { peer: self.peer, messages: self.messages@ }
    }
}

impl Chat {
    pub fn new(peer: PeerId, messages: Vec<ChatMessage>) -> (r: Self)
        ensures
            r.peer == peer,
            r.messages@ == messages@,
    {
        Self { peer, messages }
    }

    pub fn create(peer: PeerId) -> (r: Self)
        ensures
            r.peer == peer,
            r.messages@ == Seq::<ChatMessage>::empty(),
    {
        Self::new(peer, Vec::new())
    }

    pub fn add_message(&mut self, msg: ChatMessage)
        ensures
            final(self).peer == old(self).peer,
            final(self).messages@ == old(self).messages@.push(msg),
    {
        self.messages.push(msg);
    }
}

/// A copy of a message list, element for element.
pub fn clone_messages(messages: &Vec<ChatMessage>) -> (r: Vec<ChatMessage>)
    ensures
        r@ == messages@,
{
    let mut r: Vec<ChatMessage> = Vec::new();
    let mut i: usize = 0;
    while i < messages.len()
        invariant
            i <= messages.len(),
            r@ == messages@.take(i as int),
        decreases messages.len() - i,
    {
        r.push(messages[i].clone());
        i = i + 1;
        assert(r@ == messages@.take(i as int));
    }
    assert(messages@.take(i as int) == messages@);
    r
}

impl Clone for Chat {
    fn clone(&self) -> (r: Self)
        ensures
            r.peer == self.peer,
            r.messages@ == self.messages@,
    {
        Chat { peer: self.peer.clone(), messages: clone_messages(&self.messages) }
    }
}

} // verus!

use vstd::prelude::*;
use crate::address_map::AddressMap;
use crate::application::error::RepositoryError;
use crate::domain::chat::{clone_messages, Chat};
use crate::domain::message::ChatMessage;
use crate::domain::peer::{PeerAddress, PeerId};
use crate::infrastructure::dtos::{readable_messages, MessageVecDto};

verus! {

/// The chats held in memory by the chat repository, one message list per
/// peer.
pub struct ChatStore {
    chats: AddressMap<Vec<ChatMessage>>,
}

/// `listed` holds one chat per stored peer, each with its stored messages.
pub open spec fn lists_chats(listed: Seq<Chat>, stored: Map<Seq<char>, Seq<ChatMessage>>) -> bool {
    &&& forall|i: int|
        0 <= i < listed.len() ==> stored.contains_key(#[trigger] listed[i].peer@)
            && stored[listed[i].peer@] == listed[i].messages@
    &&& forall|k: Seq<char>|
        #[trigger] stored.contains_key(k) ==> exists|i: int|
            0 <= i < listed.len() && #[trigger] listed[i].peer@ == k
    &&& forall|i: int, j: int|
        0 <= i < listed.len() && 0 <= j < listed.len() && i != j ==> #[trigger] listed[i].peer@
            != #[trigger] listed[j].peer@
}

impl View for ChatStore {
    type V = Map<Seq<char>, Seq<ChatMessage>>;

    closed spec fn view(&self) -> Map<Seq<char>, Seq<ChatMessage>> {
        self.chats@.map_values(|v: Vec<ChatMessage>| v@)
    }
}

impl ChatStore {
    pub closed spec fn wf(self) -> bool {
        self.chats.wf()
    }

    pub fn new() -> (r: Self)
        ensures
            r.wf(),
            r@ == Map::<Seq<char>, Seq<ChatMessage>>::empty(),
    {
        let r = ChatStore { chats: AddressMap::new() };
        assert(r@ =~= Map::<Seq<char>, Seq<ChatMessage>>::empty());
        r
    }

    /// The chat with `peer`, if one is stored.
    pub fn get(&self, peer: &PeerId) -> (r: Option<Chat>)
        requires
            self.wf(),
        ensures
            match r {
                Some(c) => self@.contains_key(peer@) && c.peer == *peer && c.messages@
                    == self@[peer@],
                None => !self@.contains_key(peer@),
            },
    {
        match self.chats.get(peer) {
            Some(messages) => Some(Chat::new(peer.clone(), clone_messages(messages))),
            None => None,
        }
    }

    /// Stores `chat` in place of any chat with the same peer.
    pub fn save(&mut self, chat: Chat)
        requires
            old(self).wf(),
        ensures
            final(self).wf(),
            final(self)@ == old(self)@.insert(chat.peer@, chat.messages@),
    {
        let ghost messages = chat.messages@;
        let ghost key = chat.peer@;
        self.chats.insert(chat.peer, chat.messages);
        assert(self@ =~= old(self)@.insert(key, messages));
    }

    /// Stores `chat` if writing it succeeded; hands back the outcome of the
    /// write.
    pub fn save_written(&mut self, chat: Chat, written: Result<(), RepositoryError>) -> (r:
        Result<(), RepositoryError>)
        requires
            old(self).wf(),
        ensures
            final(self).wf(),
            r == written,
            final(self)@ == if written is Ok {
                old(self)@.insert(chat.peer@, chat.messages@)
            } else {
                old(self)@
            },
    {
        match written {
            Ok(u) => {
                self.save(chat);
                Ok(u)
            },
            Err(e) => Err(e),
        }
    }

    /// Every stored chat.
    pub fn list(&self) -> (r: Vec<Chat>)
        requires
            self.wf(),
        ensures
            lists_chats(r@, self@),
    {
        proof {
            self.chats.lemma_entries();
        }
        let mut r: Vec<Chat> = Vec::new();
        let mut i: usize = 0;
        let n = self.chats.len();
        while i < n
            invariant
                self.wf(),
                n == self.chats.key_seq().len(),
                i <= n,
                r.len() == i,
                forall|j: int|
                    0 <= j < i ==> (#[trigger] r@[j]).peer == self.chats.key_seq()[j]
                        && r@[j].messages@ == self.chats.value_seq()[j]@,
            decreases n - i,
        {
            let peer = self.chats.key_at(i).clone();
            let messages = clone_messages(self.chats.value_at(i));
            r.push(Chat::new(peer, messages));
            i = i + 1;
        }
        proof {
            assert forall|k: Seq<char>| #[trigger] self@.contains_key(k) implies exists|j: int|
                0 <= j < r@.len() && #[trigger] r@[j].peer@ == k by {
                assert(self.chats@.contains_key(k));
                let j = choose|j: int|
                    0 <= j < self.chats.key_seq().len() && #[trigger] self.chats.key_seq()[j]@ == k;
                assert(r@[j].peer@ == k);
            }
        }
        r
    }

    /// Takes in the chat file found in directory `dir_name`: the messages of
    /// its records that convert, under the peer named like the directory.
    pub fn load_record(&mut self, dir_name: String, dto: MessageVecDto)
        requires
            old(self).wf(),
        ensures
            final(self).wf(),
            final(self)@ == old(self)@.insert(dir_name@, readable_messages(dto.messages@)),
    {
        let peer = PeerAddress::new(dir_name);
        let messages = dto.into_messages();
        self.save(Chat::new(peer, messages));
    }
}

/// What a chat store gives back for a peer is the chat last saved for it;
/// saving a chat leaves the chats of other peers as they were.
pub proof fn saved_chat_reads_back(
    before: Map<Seq<char>, Seq<ChatMessage>>,
    saved: Chat,
    other: Seq<char>,
)
    requires
        other != saved.peer@,
    ensures
        before.insert(saved.peer@, saved.messages@).contains_key(saved.peer@),
        before.insert(saved.peer@, saved.messages@)[saved.peer@] == saved.messages@,
        before.insert(saved.peer@, saved.messages@).contains_key(other) == before.contains_key(
            other,
        ),
        before.contains_key(other) ==> before.insert(saved.peer@, saved.messages@)[other]
            == before[other],
{
}

} // verus!

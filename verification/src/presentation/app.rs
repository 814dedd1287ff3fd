use vstd::prelude::*;
use crate::address_map::AddressMap;
use crate::domain::message::MessageContent;
use crate::domain::peer::PeerId;

verus! {

/// A message as the chat view shows it.
#[derive(Debug)]
pub struct DisplayMessage {
    pub content: String,
    pub sent_by_me: bool,
    pub delivered: bool,
}

impl Clone for DisplayMessage {
    fn clone(&self) -> (r: Self)
        ensures
            r == *self,
    {
        DisplayMessage {
            content: self.content.clone(),
            sent_by_me: self.sent_by_me,
            delivered: self.delivered,
        }
    }
}

#[derive(Debug, Clone, Copy, PartialEq, Eq, Structural)]
pub enum InputMode {
    Normal,
    Editing,
}

/// The state of the terminal user interface.
pub struct TuiAppState {
    /// Known peers in the order they became known, each once.
    pub peers: Vec<PeerId>,
    /// The peers that are connected now.
    pub connected_peers: AddressMap<()>,
    /// The messages shown for each peer.
    pub chats: AddressMap<Vec<DisplayMessage>>,
    pub selected_peer: usize,
    pub input: String,
    pub input_mode: InputMode,
    pub should_quit: bool,
}

/// No address occurs twice in `peers`.
pub open spec fn distinct_addresses(peers: Seq<PeerId>) -> bool {
    forall|i: int, j: int|
        0 <= i < peers.len() && 0 <= j < peers.len() && i != j ==> #[trigger] peers[i]@
            != #[trigger] peers[j]@
}

/// Whether `peer` occurs in `peers`, by address.
pub open spec fn has_address(peers: Seq<PeerId>, peer: PeerId) -> bool {
    exists|i: int| 0 <= i < peers.len() && #[trigger] peers[i]@ == peer@
}

/// `peers` with `peer` added at the end unless it is already there.
pub open spec fn with_peer(peers: Seq<PeerId>, peer: PeerId) -> Seq<PeerId> {
    if has_address(peers, peer) {
        peers
    } else {
        peers.push(peer)
    }
}

/// The message log of each peer that has one.
pub type ChatLogs = Map<Seq<char>, Seq<DisplayMessage>>;

/// The messages shown for `peer`: its log, or none.
pub open spec fn log_of(logs: ChatLogs, peer: Seq<char>) -> Seq<DisplayMessage> {
    if logs.contains_key(peer) {
        logs[peer]
    } else {
        Seq::empty()
    }
}

/// `logs` with `msg` appended to the log of `peer`.
pub open spec fn appended(logs: ChatLogs, peer: Seq<char>, msg: DisplayMessage) -> ChatLogs {
    logs.insert(peer, log_of(logs, peer).push(msg))
}

/// A message with its delivered flag set if it is one of mine.
pub open spec fn delivered_if_mine(m: DisplayMessage) -> DisplayMessage {
    if m.sent_by_me {
        DisplayMessage { delivered: true, ..m }
    } else {
        m
    }
}

/// `logs` with every message of mine to `peer` marked delivered.
pub open spec fn all_delivered(logs: ChatLogs, peer: Seq<char>) -> ChatLogs {
    if logs.contains_key(peer) {
        logs.insert(peer, logs[peer].map_values(|m: DisplayMessage| delivered_if_mine(m)))
    } else {
        logs
    }
}

/// The display form of a message.
pub open spec fn display_message(content: MessageContent, sent_by_me: bool, delivered: bool) -> DisplayMessage {
    match content {
        MessageContent::Text(t) => DisplayMessage { content: t, sent_by_me, delivered },
    }
}

impl TuiAppState {
    /// The state's invariant: each peer listed once, and the two tables well
    /// formed.
    pub open spec fn wf(&self) -> bool {
        &&& distinct_addresses(self.peers@)
        &&& self.connected_peers.wf()
        &&& self.chats.wf()
    }

    /// The two tables are well formed (the part of `wf` that the functions
    /// working on the tables need).
    pub open spec fn tables_wf(&self) -> bool {
        &&& self.connected_peers.wf()
        &&& self.chats.wf()
    }

    pub open spec fn logs(&self) -> ChatLogs {
        self.chats@.map_values(|v: Vec<DisplayMessage>| v@)
    }

    /// The addresses of the connected peers.
    pub open spec fn connected(&self) -> Set<Seq<char>> {
        self.connected_peers@.dom()
    }

    pub fn new() -> (r: Self)
        ensures
            r.wf(),
            r.peers@ == Seq::<PeerId>::empty(),
            r.connected() == Set::<Seq<char>>::empty(),
            r.logs() == Map::<Seq<char>, Seq<DisplayMessage>>::empty(),
            r.selected_peer == 0,
            r.input@ == Seq::<char>::empty(),
            r.input_mode == InputMode::Normal,
            !r.should_quit,
    {
        let r = Self {
            peers: Vec::new(),
            connected_peers: AddressMap::new(),
            chats: AddressMap::new(),
            selected_peer: 0,
            input: String::new(),
            input_mode: InputMode::Normal,
            should_quit: false,
        };
        assert(r.connected() =~= Set::<Seq<char>>::empty());
        assert(r.logs() =~= Map::<Seq<char>, Seq<DisplayMessage>>::empty());
        r
    }

    /// The peer at the selected position, if there is one.
    pub open spec fn selected(&self) -> Option<PeerId> {
        if self.selected_peer < self.peers.len() {
            Some(self.peers@[self.selected_peer as int])
        } else {
            None
        }
    }

    pub fn selected_peer_id(&self) -> (r: Option<&PeerId>)
        ensures
            match r {
                Some(p) => self.selected() == Some(*p),
                None => self.selected() is None,
            },
    {
        if self.selected_peer < self.peers.len() {
            Some(&self.peers[self.selected_peer])
        } else {
            None
        }
    }

    /// The messages shown for the selected peer.
    pub fn current_messages(&self) -> (r: &[DisplayMessage])
        requires
            self.chats.wf(),
        ensures
            r@ == match self.selected() {
                Some(p) => log_of(self.logs(), p@),
                None => Seq::<DisplayMessage>::empty(),
            },
    {
        match self.selected_peer_id() {
            Some(p) => match self.chats.get(p) {
                Some(v) => v.as_slice(),
                None => &[],
            },
            None => &[],
        }
    }

    /// Appends a message to the log of `peer`.
    pub fn add_message(
        &mut self,
        peer: &PeerId,
        content: &MessageContent,
        sent_by_me: bool,
        delivered: bool,
    )
        requires
            old(self).chats.wf(),
        ensures
            final(self).chats.wf(),
            old(self).wf() ==> final(self).wf(),
            final(self).logs() == appended(
                old(self).logs(),
                peer@,
                display_message(*content, sent_by_me, delivered),
            ),
            final(self).peers == old(self).peers,
            final(self).connected_peers == old(self).connected_peers,
            final(self).selected_peer == old(self).selected_peer,
            final(self).input == old(self).input,
            final(self).input_mode == old(self).input_mode,
            final(self).should_quit == old(self).should_quit,
    {
        let text = match content {
            MessageContent::Text(t) => t.clone(),
        };
        let msg = DisplayMessage { content: text, sent_by_me, delivered };
        let ghost before = self.logs();
        let mut messages = match self.chats.remove(peer) {
            Some(v) => v,
            None => Vec::new(),
        };
        messages.push(msg);
        self.chats.insert(peer.clone(), messages);
        assert(self.logs() =~= appended(before, peer@, msg));
    }

    /// Marks every message of mine to `peer` delivered.
    pub fn mark_all_delivered(&mut self, peer: &PeerId)
        requires
            old(self).chats.wf(),
        ensures
            final(self).chats.wf(),
            old(self).wf() ==> final(self).wf(),
            final(self).logs() == all_delivered(old(self).logs(), peer@),
            final(self).peers == old(self).peers,
            final(self).connected_peers == old(self).connected_peers,
            final(self).selected_peer == old(self).selected_peer,
            final(self).input == old(self).input,
            final(self).input_mode == old(self).input_mode,
            final(self).should_quit == old(self).should_quit,
    {
        let ghost before = self.logs();
        match self.chats.remove(peer) {
            Some(messages) => {
                let mut messages = messages;
                let ghost original = messages@;
                let mut i: usize = 0;
                while i < messages.len()
                    invariant
                        i <= messages.len(),
                        messages.len() == original.len(),
                        forall|j: int| 0 <= j < i ==> #[trigger] messages@[j] == delivered_if_mine(original[j]),
                        forall|j: int| i <= j < messages.len() ==> #[trigger] messages@[j] == original[j],
                    decreases messages.len() - i,
                {
                    if messages[i].sent_by_me {
                        let mut m = messages[i].clone();
                        m.delivered = true;
                        messages.set(i, m);
                    }
                    i = i + 1;
                }
                assert(messages@ =~= original.map_values(|m: DisplayMessage| delivered_if_mine(m)));
                self.chats.insert(peer.clone(), messages);
                assert(self.logs() =~= all_delivered(before, peer@));
            },
            None => {
                assert(self.logs() =~= all_delivered(before, peer@));
            },
        }
    }

    /// Whether `peer` is among the known peers.
    fn knows_peer(&self, peer: &PeerId) -> (r: bool)
        ensures
            r == has_address(self.peers@, *peer),
    {
        let mut i: usize = 0;
        while i < self.peers.len()
            invariant
                i <= self.peers.len(),
                forall|j: int| 0 <= j < i ==> self.peers@[j]@ != peer@,
            decreases self.peers.len() - i,
        {
            if self.peers[i] == *peer {
                return true;
            }
            i = i + 1;
        }
        false
    }

    /// Adds `peer` to the known peers unless it is known already.
    pub fn add_peer(&mut self, peer: PeerId)
        ensures
            distinct_addresses(old(self).peers@) ==> distinct_addresses(final(self).peers@),
            old(self).wf() ==> final(self).wf(),
            final(self).peers@ == with_peer(old(self).peers@, peer),
            final(self).connected_peers == old(self).connected_peers,
            final(self).chats == old(self).chats,
            final(self).selected_peer == old(self).selected_peer,
            final(self).input == old(self).input,
            final(self).input_mode == old(self).input_mode,
            final(self).should_quit == old(self).should_quit,
    {
        if !self.knows_peer(&peer) {
            self.peers.push(peer);
        }
    }
}

} // verus!

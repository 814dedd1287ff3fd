use vstd::prelude::*;
use crate::address_map::AddressMap;
use crate::application::error::RepositoryError;
use crate::domain::peer::{Peer, PeerAddress, PeerId};
use crate::infrastructure::dtos::{address_of_record, PeerDto};

verus! {

/// The peers held in memory by the peer repository, keyed by address.
pub struct PeerStore {
    peers: AddressMap<Peer>,
}

/// `listed` holds each stored peer once.
pub open spec fn lists_peers(listed: Seq<Peer>, stored: Map<Seq<char>, Peer>) -> bool {
    &&& forall|i: int|
        0 <= i < listed.len() ==> stored.contains_key(#[trigger] listed[i]@) && stored[listed[i]@]
            == listed[i]
    &&& forall|k: Seq<char>|
        #[trigger] stored.contains_key(k) ==> exists|i: int|
            0 <= i < listed.len() && #[trigger] listed[i]@ == k
    &&& forall|i: int, j: int|
        0 <= i < listed.len() && 0 <= j < listed.len() && i != j ==> #[trigger] listed[i]@
            != #[trigger] listed[j]@
}

impl View for PeerStore {
    type V = Map<Seq<char>, Peer>;

    closed spec fn view(&self) -> Map<Seq<char>, Peer> {
        self.peers@
    }
}

impl PeerStore {
    /// The store's invariant: each peer is stored under its own address.
    pub closed spec fn wf(self) -> bool {
        &&& self.peers.wf()
        &&& forall|k: Seq<char>| #[trigger] self.peers@.contains_key(k) ==> self.peers@[k]@ == k
    }

    pub proof fn lemma_keyed_by_address(self)
        requires
            self.wf(),
        ensures
            forall|k: Seq<char>| #[trigger] self@.contains_key(k) ==> self@[k]@ == k,
    {
    }

    pub fn new() -> (r: Self)
        ensures
            r.wf(),
            r@ == Map::<Seq<char>, Peer>::empty(),
    {
        PeerStore { peers: AddressMap::new() }
    }

    /// Stores `peer` under its address, in place of any peer stored there.
    pub fn add(&mut self, peer: Peer)
        requires
            old(self).wf(),
        ensures
            final(self).wf(),
            final(self)@ == old(self)@.insert(peer@, peer),
    {
        let key = peer.address();
        self.peers.insert(key, peer);
    }

    /// Stores `peer` if writing it succeeded; hands back the outcome of the
    /// write.
    pub fn add_written(&mut self, peer: Peer, written: Result<(), RepositoryError>) -> (r: Result<
        (),
        RepositoryError,
    >)
        requires
            old(self).wf(),
        ensures
            final(self).wf(),
            r == written,
            final(self)@ == if written is Ok {
                old(self)@.insert(peer@, peer)
            } else {
                old(self)@
            },
    {
        match written {
            Ok(u) => {
                self.add(peer);
                Ok(u)
            },
            Err(e) => Err(e),
        }
    }

    pub fn get(&self, id: &PeerId) -> (r: Option<Peer>)
        requires
            self.wf(),
        ensures
            match r {
                Some(p) => self@.contains_key(id@) && p == self@[id@],
                None => !self@.contains_key(id@),
            },
    {
        match self.peers.get(id) {
            Some(p) => Some(p.clone()),
            None => None,
        }
    }

    /// Every stored peer.
    pub fn list(&self) -> (r: Vec<Peer>)
        requires
            self.wf(),
        ensures
            lists_peers(r@, self@),
    {
        proof {
            self.peers.lemma_entries();
        }
        let mut r: Vec<Peer> = Vec::new();
        let mut i: usize = 0;
        let n = self.peers.len();
        while i < n
            invariant
                self.wf(),
                n == self.peers.key_seq().len(),
                i <= n,
                r.len() == i,
                forall|j: int| 0 <= j < i ==> #[trigger] r@[j] == self.peers.value_seq()[j],
            decreases n - i,
        {
            r.push(self.peers.value_at(i).clone());
            i = i + 1;
        }
        proof {
            assert forall|j: int| 0 <= j < r@.len() implies self@.contains_key(#[trigger] r@[j]@)
                && self@[r@[j]@] == r@[j] by {
                let k = self.peers.key_seq()[j]@;
                assert(self.peers@.contains_key(k));
            }
            assert forall|k: Seq<char>| #[trigger] self@.contains_key(k) implies exists|j: int|
                0 <= j < r@.len() && #[trigger] r@[j]@ == k by {
                let j = choose|j: int|
                    0 <= j < self.peers.key_seq().len() && #[trigger] self.peers.key_seq()[j]@ == k;
                assert(self.peers@.contains_key(self.peers.key_seq()[j]@));
                assert(r@[j]@ == k);
            }
            assert forall|a: int, b: int|
                0 <= a < r@.len() && 0 <= b < r@.len() && a != b implies #[trigger] r@[a]@
                != #[trigger] r@[b]@ by {
                let ka = self.peers.key_seq()[a]@;
                let kb = self.peers.key_seq()[b]@;
                assert(self.peers@.contains_key(ka));
                assert(self.peers@.contains_key(kb));
            }
        }
        r
    }

    /// Forgets the peer stored under `id`, if any.
    pub fn remove(&mut self, id: &PeerId)
        requires
            old(self).wf(),
        ensures
            final(self).wf(),
            final(self)@ == old(self)@.remove(id@),
    {
        let _ = self.peers.remove(id);
    }

    /// Forgets the peer if deleting its directory succeeded; hands back the
    /// outcome of the deletion.
    pub fn remove_deleted(&mut self, id: &PeerId, deleted: Result<(), RepositoryError>) -> (r:
        Result<(), RepositoryError>)
        requires
            old(self).wf(),
        ensures
            final(self).wf(),
            r == deleted,
            final(self)@ == if deleted is Ok {
                old(self)@.remove(id@)
            } else {
                old(self)@
            },
    {
        match deleted {
            Ok(u) => {
                self.remove(id);
                Ok(u)
            },
            Err(e) => Err(e),
        }
    }

    /// Takes in a peer file.
    pub fn load_record(&mut self, dto: PeerDto)
        requires
            old(self).wf(),
        ensures
            final(self).wf(),
            final(self)@ == old(self)@.insert(
                address_of_record(dto.address)@,
                Peer::spec_new(address_of_record(dto.address)),
            ),
    {
        let address = PeerAddress::from(dto.address);
        let peer = Peer::new(address);
        proof {
            Peer::lemma_spec_new(address);
        }
        self.add(peer);
    }
}

/// A peer added to the store is found under its address until it is
/// removed; removing it leaves the other peers as they were.
pub proof fn added_peer_reads_back(before: Map<Seq<char>, Peer>, peer: Peer, other: Seq<char>)
    requires
        other != peer@,
    ensures
        before.insert(peer@, peer).contains_key(peer@),
        before.insert(peer@, peer)[peer@] == peer,
        !before.insert(peer@, peer).remove(peer@).contains_key(peer@),
        before.remove(peer@).contains_key(other) == before.contains_key(other),
        before.contains_key(other) ==> before.remove(peer@)[other] == before[other],
{
}

} // verus!

use vstd::prelude::*;

verus! {

/// The textual address under which a peer is known and reached.
#[derive(Debug, Hash)]
pub struct PeerAddress {
    text: String,
}

/// Peers are identified by their address.
pub type PeerId = PeerAddress;

impl View for PeerAddress {
    type V = Seq<char>;

    closed spec fn view(&self) -> Seq<char> {
        self.text@
    }
}

impl PeerAddress {
    /// The address held as `text`.
    pub closed spec fn spec_new(text: String) -> PeerAddress {
        PeerAddress { text }
    }

    /// The text the address holds.
    pub closed spec fn spec_text(self) -> String {
        self.text
    }

    pub proof fn lemma_text(self, text: String)
        ensures
            PeerAddress::spec_new(text)@ == text@,
            PeerAddress::spec_new(text).spec_text() == text,
            self.spec_text()@ == self@,
            PeerAddress::spec_new(self.spec_text()) == self,
    {
    }

    pub fn new(address: String) -> (r: Self)
        ensures
            r == PeerAddress::spec_new(address),
            r@ == address@,
    {
        PeerAddress { text: address }
    }

    /// The address text, as the original prints it.
    pub fn as_str(&self) -> (r: &str)
        ensures
            r@ == self@,
    {
        self.text.as_str()
    }

    pub fn to_string(&self) -> (r: String)
        ensures
            r == self.spec_text(),
            r@ == self@,
    {
        self.text.clone()
    }
}

impl Clone for PeerAddress {
    fn clone(&self) -> (r: Self)
        ensures
            r == *self,
    {
        PeerAddress { text: self.text.clone() }
    }
}

impl PartialEq for PeerAddress {
    fn eq(&self, other: &Self) -> (r: bool) {
        self.text == other.text
    }
}

impl Eq for PeerAddress {}

impl vstd::std_specs::cmp::PartialEqSpecImpl for PeerAddress {
    open spec fn obeys_eq_spec() -> bool {
        true
    }

    open spec fn eq_spec(&self, other: &Self) -> bool {
        self@ == other@
    }
}

/// A known peer. For now a peer is its address.
#[derive(Debug)]
pub struct Peer {
    address: PeerAddress,
}

impl View for Peer {
    type V = Seq<char>;

    closed spec fn view(&self) -> Seq<char> {
        self.address@
    }
}

impl Peer {
    /// The peer known by `address`.
    pub closed spec fn spec_new(address: PeerAddress) -> Peer {
        Peer { address }
    }

    pub closed spec fn spec_address(self) -> PeerAddress {
        self.address
    }

    pub proof fn lemma_spec_new(address: PeerAddress)
        ensures
            Peer::spec_new(address)@ == address@,
            Peer::spec_new(address).spec_address() == address,
            forall|p: Peer| #[trigger] Peer::spec_new(p.spec_address()) == p,
            forall|p: Peer| #[trigger] p.spec_address()@ == p@,
    {
    }

    pub fn new(address: PeerAddress) -> (r: Self)
        ensures
            r == Peer::spec_new(address),
            r@ == address@,
    {
        Peer { address }
    }

    pub fn address(&self) -> (r: PeerAddress)
        ensures
            r == self.spec_address(),
            r@ == self@,
    {
        self.address.clone()
    }

    pub fn id(&self) -> (r: PeerId)
        ensures
            r@ == self@,
    {
        self.address.clone()
    }
}

impl Clone for Peer {
    fn clone(&self) -> (r: Self)
        ensures
            r == *self,
    {
        Peer { address: self.address.clone() }
    }
}

} // verus!

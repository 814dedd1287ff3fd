use vstd::prelude::*;
use crate::address_map::AddressMap;
use crate::application::error::ConnectionServiceError;
use crate::application::events::AppEvent;
use crate::domain::peer::PeerAddress;

verus! {

broadcast use vstd::string::group_string_axioms;

/// How an attempt to open a connection to a peer ended.
pub enum ConnectAttempt<C> {
    /// The peer's address is not an IP address.
    InvalidAddress,
    /// Connecting failed, for the reason given.
    Failed(String),
    Established(C),
}

/// What a probe of a connection found just before a send.
pub enum ProbeResult {
    /// Nothing to read yet: the connection is alive.
    Alive,
    /// The peer closed the connection.
    Closed,
    /// The connection failed, for the reason given.
    Failed(String),
}

/// The open outbound connections, one per peer, each of type `C`.
pub struct OutboundConnections<C> {
    connections: AddressMap<C>,
}

impl<C> View for OutboundConnections<C> {
    type V = Map<Seq<char>, C>;

    closed spec fn view(&self) -> Map<Seq<char>, C> {
        self.connections@
    }
}

/// The error a send reports when the peer closed the connection.
pub open spec fn closed_by_peer(e: ConnectionServiceError) -> bool {
    e matches ConnectionServiceError::SendError(s) && s@ == "Connection closed by peer"@
}

impl<C> OutboundConnections<C> {
    pub closed spec fn wf(self) -> bool {
        self.connections.wf()
    }

    pub fn new() -> (r: Self)
        ensures
            r.wf(),
            r@ == Map::<Seq<char>, C>::empty(),
    {
        OutboundConnections { connections: AddressMap::new() }
    }

    pub fn is_connected(&self, peer: &PeerAddress) -> (r: bool)
        requires
            self.wf(),
        ensures
            r == self@.contains_key(peer@),
    {
        self.connections.contains(peer)
    }

    /// Records how connecting to `peer` went. An established connection
    /// replaces any earlier one to the peer and is announced.
    pub fn connect(&mut self, peer: PeerAddress, attempt: ConnectAttempt<C>) -> (r: (
        Result<(), ConnectionServiceError>,
        Option<AppEvent>,
    ))
        requires
            old(self).wf(),
        ensures
            final(self).wf(),
            match attempt {
                ConnectAttempt::InvalidAddress => {
                    &&& r == (Err::<(), ConnectionServiceError>(
                        ConnectionServiceError::InvalidAddress(peer),
                    ), None::<AppEvent>)
                    &&& final(self)@ == old(self)@
                },
                ConnectAttempt::Failed(e) => {
                    &&& r == (Err::<(), ConnectionServiceError>(
                        ConnectionServiceError::ConnectionError(e),
                    ), None::<AppEvent>)
                    &&& final(self)@ == old(self)@
                },
                ConnectAttempt::Established(c) => {
                    &&& r.0 is Ok
                    &&& r.1 == Some(AppEvent::PeerConnected(peer))
                    &&& final(self)@ == old(self)@.insert(peer@, c)
                },
            },
    {
        match attempt {
            ConnectAttempt::InvalidAddress => (
                Err(ConnectionServiceError::InvalidAddress(peer)),
                None,
            ),
            ConnectAttempt::Failed(e) => (Err(ConnectionServiceError::ConnectionError(e)), None),
            ConnectAttempt::Established(c) => {
                self.connections.insert(peer.clone(), c);
                (Ok(()), Some(AppEvent::PeerConnected(peer)))
            },
        }
    }

    /// Drops the connection to `peer`, if any; the event to announce.
    pub fn disconnect(&mut self, peer: PeerAddress) -> (r: AppEvent)
        requires
            old(self).wf(),
        ensures
            final(self).wf(),
            final(self)@ == old(self)@.remove(peer@),
            r == AppEvent::PeerDisconnected(peer),
    {
        let _ = self.connections.remove(&peer);
        AppEvent::PeerDisconnected(peer)
    }

    /// Takes out the connection to `peer` to send on it; a peer without one is
    /// not connected.
    pub fn take_for_send(&mut self, peer: &PeerAddress) -> (r: Result<C, ConnectionServiceError>)
        requires
            old(self).wf(),
        ensures
            final(self).wf(),
            final(self)@ == old(self)@.remove(peer@),
            match r {
                Ok(c) => old(self)@.contains_key(peer@) && c == old(self)@[peer@],
                Err(e) => !old(self)@.contains_key(peer@) && e
                    == ConnectionServiceError::NotConnected,
            },
    {
        match self.connections.remove(peer) {
            Some(c) => Ok(c),
            None => Err(ConnectionServiceError::NotConnected),
        }
    }

    /// Decides on a taken-out connection after probing it: an alive one is
    /// handed back for the send; a closed or failed one is dropped, and the
    /// send fails with the disconnection to announce.
    pub fn after_probe(peer: PeerAddress, connection: C, probe: ProbeResult) -> (r: Result<
        C,
        (ConnectionServiceError, AppEvent),
    >)
        ensures
            match probe {
                ProbeResult::Alive => r == Ok::<C, (ConnectionServiceError, AppEvent)>(connection),
                ProbeResult::Closed => r matches Err((e, ev)) && closed_by_peer(e) && ev
                    == AppEvent::PeerDisconnected(peer),
                ProbeResult::Failed(reason) => r == Err::<C, (ConnectionServiceError, AppEvent)>(
                    (ConnectionServiceError::SendError(reason), AppEvent::PeerDisconnected(peer)),
                ),
            },
    {
        match probe {
            ProbeResult::Alive => Ok(connection),
            ProbeResult::Closed => {
                let reason = "Connection closed by peer".to_string();
                Err((ConnectionServiceError::SendError(reason), AppEvent::PeerDisconnected(peer)))
            },
            ProbeResult::Failed(reason) => Err(
                (ConnectionServiceError::SendError(reason), AppEvent::PeerDisconnected(peer)),
            ),
        }
    }

    /// Puts the connection back after a successful transmission; after a
    /// failed one it stays dropped and the send fails with the disconnection
    /// to announce.
    pub fn after_transmit(&mut self, peer: PeerAddress, connection: C, sent: Result<(), String>) -> (r:
        Result<(), (ConnectionServiceError, AppEvent)>)
        requires
            old(self).wf(),
        ensures
            final(self).wf(),
            match sent {
                Ok(_) => r is Ok && final(self)@ == old(self)@.insert(peer@, connection),
                Err(reason) => r == Err::<(), (ConnectionServiceError, AppEvent)>(
                    (ConnectionServiceError::SendError(reason), AppEvent::PeerDisconnected(peer)),
                ) && final(self)@ == old(self)@,
            },
    {
        match sent {
            Ok(u) => {
                self.connections.insert(peer, connection);
                Ok(u)
            },
            Err(reason) => Err(
                (ConnectionServiceError::SendError(reason), AppEvent::PeerDisconnected(peer)),
            ),
        }
    }
}

} // verus!

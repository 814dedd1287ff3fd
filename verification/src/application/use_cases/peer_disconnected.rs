use vstd::prelude::*;
use crate::application::events::AppEvent;
use crate::domain::peer::PeerAddress;

verus! {

/// Announces that a peer is no longer connected.
pub struct PeerDisconnected {}

impl PeerDisconnected {
    pub fn new() -> (r: Self) {
        PeerDisconnected {  }
    }

    /// The event to announce for `addr`.
    pub fn execute(&self, addr: &PeerAddress) -> (r: AppEvent)
        ensures
            r == AppEvent::PeerDisconnected(*addr),
    {
        AppEvent::PeerDisconnected(addr.clone())
    }
}

} // verus!

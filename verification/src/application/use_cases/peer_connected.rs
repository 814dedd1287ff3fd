use vstd::prelude::*;
use crate::application::events::AppEvent;
use crate::domain::peer::PeerAddress;

verus! {

/// Announces that a peer is now connected.
pub struct PeerConnected {}

impl PeerConnected {
    pub fn new() -> (r: Self) {
        PeerConnected {  }
    }

    /// The event to announce for `address`.
    pub fn execute(&self, address: PeerAddress) -> (r: AppEvent)
        ensures
            r == AppEvent::PeerConnected(address),
    {
        AppEvent::PeerConnected(address)
    }
}

} // verus!

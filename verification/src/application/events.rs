use vstd::prelude::*;
use crate::domain::message::MessageContent;
use crate::domain::peer::PeerId;

verus! {

/// What the application announces to its observers (the user interface).
#[derive(Debug, PartialEq)]
pub enum AppEvent {
    PeerAdded(PeerId),
    PeerConnected(PeerId),
    PeerDisconnected(PeerId),
    MessageSent { peer: PeerId, content: MessageContent, delivered: bool },
    MessageReceived { peer: PeerId, content: MessageContent },
    MessagesDelivered { peer: PeerId },
}

impl Clone for AppEvent {
    fn clone(&self) -> (r: Self)
        ensures
            r == *self,
    {
        match self {
            AppEvent::PeerAdded(p) => AppEvent::PeerAdded(p.clone()),
            AppEvent::PeerConnected(p) => AppEvent::PeerConnected(p.clone()),
            AppEvent::PeerDisconnected(p) => AppEvent::PeerDisconnected(p.clone()),
            AppEvent::MessageSent { peer, content, delivered } => AppEvent::MessageSent {
                peer: peer.clone(),
                content: content.clone(),
                delivered: *delivered,
            },
            AppEvent::MessageReceived { peer, content } => AppEvent::MessageReceived {
                peer: peer.clone(),
                content: content.clone(),
            },
            AppEvent::MessagesDelivered { peer } => AppEvent::MessagesDelivered {
                peer: peer.clone(),
            },
        }
    }
}

} // verus!

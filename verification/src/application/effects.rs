use vstd::prelude::*;
use crate::application::error::{ApplicationError, ConnectionServiceError, RepositoryError};
use crate::application::events::AppEvent;
use crate::domain::chat::{Chat, ChatView};
use crate::domain::message::ChatMessage;
use crate::domain::peer::{Peer, PeerAddress, PeerId};

verus! {

/// What a use case asks its environment to do next: consult or update a
/// repository, use the network, announce an event, or stop with a result.
#[derive(Debug)]
pub enum Effect {
    LookupPeer(PeerAddress),
    StorePeer(Peer),
    LoadChat(PeerId),
    StoreChat(Chat),
    Connect(PeerAddress),
    Deliver(PeerAddress, ChatMessage),
    Emit(AppEvent),
    Finish(Result<(), ApplicationError>),
}

/// The answer of the environment to an effect.
#[derive(Debug)]
pub enum Outcome {
    PeerLookedUp(Result<Option<Peer>, RepositoryError>),
    PeerStored(Result<(), RepositoryError>),
    ChatLoaded(Result<Option<Chat>, RepositoryError>),
    ChatStored(Result<(), RepositoryError>),
    Connected(Result<(), ConnectionServiceError>),
    Delivered(Result<(), ConnectionServiceError>),
    Emitted,
}

/// An effect as a value, with the chat to store taken by its view.
pub enum EffectView {
    LookupPeer(PeerAddress),
    StorePeer(Peer),
    LoadChat(PeerId),
    StoreChat(ChatView),
    Connect(PeerAddress),
    Deliver(PeerAddress, ChatMessage),
    Emit(AppEvent),
    Finish(Result<(), ApplicationError>),
}

impl View for Effect {
    type V = EffectView;

    open spec fn view(&self) -> EffectView {
        match self {
            Effect::LookupPeer(a) => EffectView::LookupPeer(*a),
            Effect::StorePeer(p) => EffectView::StorePeer(*p),
            Effect::LoadChat(p) => EffectView::LoadChat(*p),
            Effect::StoreChat(c) => EffectView::StoreChat(c@),
            Effect::Connect(a) => EffectView::Connect(*a),
            Effect::Deliver(a, m) => EffectView::Deliver(*a, *m),
            Effect::Emit(e) => EffectView::Emit(*e),
            Effect::Finish(r) => EffectView::Finish(*r),
        }
    }
}

/// `outcome` answers `effect`: it is the kind of outcome the effect asks
/// for. Nothing answers `Finish`.
pub open spec fn answers(effect: EffectView, outcome: Outcome) -> bool {
    match effect {
        EffectView::LookupPeer(_) => outcome is PeerLookedUp,
        EffectView::StorePeer(_) => outcome is PeerStored,
        EffectView::LoadChat(_) => outcome is ChatLoaded,
        EffectView::StoreChat(_) => outcome is ChatStored,
        EffectView::Connect(_) => outcome is Connected,
        EffectView::Deliver(_, _) => outcome is Delivered,
        EffectView::Emit(_) => outcome is Emitted,
        EffectView::Finish(_) => false,
    }
}

/// A use case in progress. The environment performs `pending()` and hands
/// the answer to `resume`, until the pending effect is `Finish`.
pub trait UseCaseRun {
    fn pending(&self) -> Effect;

    fn resume(&mut self, outcome: Outcome);
}

} // verus!

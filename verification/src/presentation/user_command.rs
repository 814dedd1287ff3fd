use vstd::prelude::*;
use crate::domain::peer::PeerId;

verus! {

/// What the user asks the application to do.
#[derive(Debug)]
pub enum UserCommand {
    SendMessage { peer: PeerId, text: String },
    AddPeer { address: String },
    ConnectToPeer { peer: PeerId },
    Quit,
}

/// A command as a value, texts taken by their characters.
pub enum UserCommandView {
    SendMessage { peer: PeerId, text: Seq<char> },
    AddPeer { address: Seq<char> },
    ConnectToPeer { peer: PeerId },
    Quit,
}

impl View for UserCommand {
    type V = UserCommandView;

    open spec fn view(&self) -> UserCommandView {
        match self {
            UserCommand::SendMessage { peer, text } => UserCommandView::SendMessage {
                peer: *peer,
                text: text@,
            },
            UserCommand::AddPeer { address } => UserCommandView::AddPeer { address: address@ },
            UserCommand::ConnectToPeer { peer } => UserCommandView::ConnectToPeer { peer: *peer },
            UserCommand::Quit => UserCommandView::Quit,
        }
    }
}

} // verus!

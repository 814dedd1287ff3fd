use vstd::prelude::*;
use crate::domain::peer::PeerId;
use crate::presentation::app::{DisplayMessage, InputMode, TuiAppState};
use crate::presentation::text::{append, owned};

verus! {

/// How a row of the peer list is drawn: highlighted when selected, else
/// by whether the peer is connected.
#[derive(Debug, Clone, Copy, PartialEq, Eq, Structural)]
pub enum PeerRowStyle {
    Selected,
    Connected,
    Disconnected,
}

/// The title of the chat pane: the selected peer, or that there is none.
pub open spec fn chat_title_text(selected: Option<PeerId>) -> Seq<char> {
    match selected {
        Some(p) => " Chat with "@ + p@ + " "@,
        None => " No peer selected "@,
    }
}

/// The marker in front of a peer in the list.
pub open spec fn peer_marker_text(connected: bool) -> Seq<char> {
    if connected {
        "● "@
    } else {
        "○ "@
    }
}

/// The style of row `i` of the peer list.
pub open spec fn peer_row_style_of(app: &TuiAppState, i: int) -> PeerRowStyle {
    if i == app.selected_peer {
        PeerRowStyle::Selected
    } else if app.connected().contains(app.peers@[i]@) {
        PeerRowStyle::Connected
    } else {
        PeerRowStyle::Disconnected
    }
}

/// The title of the input box in each mode.
pub open spec fn input_title_text(mode: InputMode) -> Seq<char> {
    match mode {
        InputMode::Normal => " Press 'i' to type, 'q' to quit "@,
        InputMode::Editing => " Type message (Enter=send, /add <ip>, /connect, Esc=cancel) "@,
    }
}

/// The title of the chat pane.
pub fn chat_title(app: &TuiAppState) -> (r: String)
    ensures
        r@ == chat_title_text(app.selected()),
{
    match app.selected_peer_id() {
        Some(p) => {
            let mut title = owned(" Chat with ");
            append(&mut title, p.as_str());
            append(&mut title, " ");
            title
        },
        None => owned(" No peer selected "),
    }
}

/// The marker and style of row `i` of the peer list.
pub fn peer_row(app: &TuiAppState, i: usize) -> (r: (&'static str, PeerRowStyle))
    requires
        app.connected_peers.wf(),
        i < app.peers.len(),
    ensures
        r.0@ == peer_marker_text(app.connected().contains(app.peers@[i as int]@)),
        r.1 == peer_row_style_of(app, i as int),
{
    let connected = app.connected_peers.contains(&app.peers[i]);
    let marker = if connected {
        "● "
    } else {
        "○ "
    };
    let style = if i == app.selected_peer {
        PeerRowStyle::Selected
    } else if connected {
        PeerRowStyle::Connected
    } else {
        PeerRowStyle::Disconnected
    };
    (marker, style)
}

/// Who wrote a message, as the chat pane puts it in front of the text.
pub fn message_prefix(m: &DisplayMessage) -> (r: &'static str)
    ensures
        r@ == (if m.sent_by_me {
            "You: "@
        } else {
            "Peer: "@
        }),
{
    if m.sent_by_me {
        "You: "
    } else {
        "Peer: "
    }
}

/// The mark after a message of mine: delivered or not. A message from the
/// peer has none.
pub fn delivery_mark(m: &DisplayMessage) -> (r: Option<&'static str>)
    ensures
        m.sent_by_me ==> r is Some && r->0@ == (if m.delivered {
            " ✓"@
        } else {
            " !"@
        }),
        !m.sent_by_me ==> r is None,
{
    if !m.sent_by_me {
        None
    } else if m.delivered {
        Some(" ✓")
    } else {
        Some(" !")
    }
}

/// The title of the input box.
pub fn input_title(mode: InputMode) -> (r: &'static str)
    ensures
        r@ == input_title_text(mode),
{
    match mode {
        InputMode::Normal => " Press 'i' to type, 'q' to quit ",
        InputMode::Editing => " Type message (Enter=send, /add <ip>, /connect, Esc=cancel) ",
    }
}

/// How many peers are connected, and how many are known.
pub fn peer_counts(app: &TuiAppState) -> (r: (usize, usize))
    requires
        app.connected_peers.wf(),
    ensures
        r.0 == app.connected().len(),
        r.1 == app.peers.len(),
{
    proof {
        app.connected_peers.lemma_dom_len();
    }
    (app.connected_peers.len(), app.peers.len())
}

} // verus!

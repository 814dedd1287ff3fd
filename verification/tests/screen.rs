use peer_pressure::application::events::AppEvent;
use peer_pressure::domain::peer::PeerAddress;
use peer_pressure::presentation::app::{DisplayMessage, InputMode, TuiAppState};
use peer_pressure::presentation::app_event_handler::handle;
use peer_pressure::presentation::screen::{
    chat_title, delivery_mark, input_title, message_prefix, peer_counts, peer_row, PeerRowStyle,
};

fn addr(s: &str) -> PeerAddress {
    PeerAddress::new(s.into())
}

fn shown(content: &str, sent_by_me: bool, delivered: bool) -> DisplayMessage {
    DisplayMessage { content: content.into(), sent_by_me, delivered }
}

#[test]
fn chat_title_names_the_selected_peer() {
    let mut app = TuiAppState::new();
    assert_eq!(chat_title(&app), " No peer selected ");
    app.add_peer(addr("192.168.1.7"));
    assert_eq!(chat_title(&app), " Chat with 192.168.1.7 ");
    app.selected_peer = 3;
    assert_eq!(chat_title(&app), " No peer selected ");
}

#[test]
fn peer_rows_show_connection_and_selection() {
    let mut app = TuiAppState::new();
    handle(&mut app, AppEvent::PeerAdded(addr("a")));
    handle(&mut app, AppEvent::PeerConnected(addr("b")));
    handle(&mut app, AppEvent::PeerAdded(addr("c")));
    assert_eq!(peer_row(&app, 0), ("○ ", PeerRowStyle::Selected));
    assert_eq!(peer_row(&app, 1), ("● ", PeerRowStyle::Connected));
    assert_eq!(peer_row(&app, 2), ("○ ", PeerRowStyle::Disconnected));
    app.selected_peer = 1;
    assert_eq!(peer_row(&app, 1), ("● ", PeerRowStyle::Selected));
    assert_eq!(peer_row(&app, 0), ("○ ", PeerRowStyle::Disconnected));
}

#[test]
fn message_lines_show_author_and_delivery() {
    let mine_sent = shown("hi", true, true);
    let mine_waiting = shown("hi", true, false);
    let theirs = shown("yo", false, false);
    assert_eq!(message_prefix(&mine_sent), "You: ");
    assert_eq!(message_prefix(&theirs), "Peer: ");
    assert_eq!(delivery_mark(&mine_sent), Some(" ✓"));
    assert_eq!(delivery_mark(&mine_waiting), Some(" !"));
    assert_eq!(delivery_mark(&theirs), None);
}

#[test]
fn input_title_follows_the_mode() {
    assert_eq!(input_title(InputMode::Normal), " Press 'i' to type, 'q' to quit ");
    assert_eq!(
        input_title(InputMode::Editing),
        " Type message (Enter=send, /add <ip>, /connect, Esc=cancel) "
    );
}

#[test]
fn peer_counts_count_connected_and_known_peers() {
    let mut app = TuiAppState::new();
    assert_eq!(peer_counts(&app), (0, 0));
    handle(&mut app, AppEvent::PeerAdded(addr("a")));
    handle(&mut app, AppEvent::PeerConnected(addr("b")));
    handle(&mut app, AppEvent::PeerConnected(addr("c")));
    handle(&mut app, AppEvent::PeerConnected(addr("b")));
    assert_eq!(peer_counts(&app), (2, 3));
    handle(&mut app, AppEvent::PeerDisconnected(addr("c")));
    assert_eq!(peer_counts(&app), (1, 3));
}

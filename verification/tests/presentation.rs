use peer_pressure::application::events::AppEvent;
use peer_pressure::domain::chat::Chat;
use peer_pressure::domain::message::{ChatMessage, MessageContent, SentBy};
use peer_pressure::domain::peer::{Peer, PeerAddress};
use peer_pressure::presentation::app::{InputMode, TuiAppState};
use peer_pressure::presentation::app_event_handler::handle;
use peer_pressure::presentation::input_handler::{handle_key, KeyCode, KeyPress};
use peer_pressure::presentation::startup::load_state_into_tui_app;
use peer_pressure::presentation::user_command::UserCommand;

fn addr(s: &str) -> PeerAddress {
    PeerAddress::new(s.into())
}

fn key(code: KeyCode) -> KeyPress {
    KeyPress { code, ctrl: false }
}

fn text(s: &str) -> MessageContent {
    MessageContent::Text(s.into())
}

#[test]
fn new_state_is_empty() {
    let app = TuiAppState::new();
    assert!(app.peers.is_empty());
    assert!(app.selected_peer_id().is_none());
    assert!(app.current_messages().is_empty());
    assert_eq!(app.input_mode, InputMode::Normal);
    assert!(!app.should_quit);
}

#[test]
fn add_peer_ignores_known_address() {
    let mut app = TuiAppState::new();
    app.add_peer(addr("a"));
    app.add_peer(addr("b"));
    app.add_peer(addr("a"));
    assert_eq!(app.peers, vec![addr("a"), addr("b")]);
    assert_eq!(app.selected_peer_id(), Some(&addr("a")));
}

#[test]
fn messages_are_shown_for_selected_peer() {
    let mut app = TuiAppState::new();
    app.add_peer(addr("a"));
    app.add_peer(addr("b"));
    app.add_message(&addr("a"), &text("to a"), true, false);
    app.add_message(&addr("b"), &text("from b"), false, true);
    app.add_message(&addr("a"), &text("again"), true, true);
    let shown = app.current_messages();
    assert_eq!(shown.len(), 2);
    assert_eq!(shown[0].content, "to a");
    assert!(shown[0].sent_by_me && !shown[0].delivered);
    assert_eq!(shown[1].content, "again");
    app.selected_peer = 1;
    assert_eq!(app.current_messages()[0].content, "from b");
    app.selected_peer = 5;
    assert!(app.current_messages().is_empty());
}

#[test]
fn mark_all_delivered_only_touches_my_messages_to_that_peer() {
    let mut app = TuiAppState::new();
    app.add_peer(addr("a"));
    app.add_message(&addr("a"), &text("mine"), true, false);
    app.add_message(&addr("a"), &text("theirs"), false, false);
    app.add_message(&addr("b"), &text("other"), true, false);
    app.mark_all_delivered(&addr("a"));
    app.mark_all_delivered(&addr("nobody"));
    let shown = app.current_messages();
    assert!(shown[0].delivered);
    assert!(!shown[1].delivered);
    app.add_peer(addr("b"));
    app.selected_peer = 1;
    assert!(!app.current_messages()[0].delivered);
}

#[test]
fn events_update_the_state() {
    let mut app = TuiAppState::new();
    handle(&mut app, AppEvent::PeerAdded(addr("a")));
    handle(&mut app, AppEvent::PeerConnected(addr("b")));
    assert_eq!(app.peers, vec![addr("a"), addr("b")]);
    assert!(app.connected_peers.contains(&addr("b")));
    handle(&mut app, AppEvent::PeerDisconnected(addr("b")));
    assert!(!app.connected_peers.contains(&addr("b")));
    handle(
        &mut app,
        AppEvent::MessageSent { peer: addr("a"), content: text("hi"), delivered: false },
    );
    handle(&mut app, AppEvent::MessageReceived { peer: addr("c"), content: text("yo") });
    assert_eq!(app.peers, vec![addr("a"), addr("b"), addr("c")]);
    assert!(!app.current_messages()[0].delivered);
    handle(&mut app, AppEvent::MessagesDelivered { peer: addr("a") });
    assert!(app.current_messages()[0].delivered);
    app.selected_peer = 2;
    assert_eq!(app.current_messages()[0].content, "yo");
    assert!(!app.current_messages()[0].sent_by_me);
}

#[test]
fn normal_mode_keys() {
    let mut app = TuiAppState::new();
    assert!(handle_key(&mut app, key(KeyCode::Tab)).is_none());
    assert_eq!(app.selected_peer, 0);
    app.add_peer(addr("a"));
    app.add_peer(addr("b"));
    app.add_peer(addr("c"));
    handle_key(&mut app, key(KeyCode::Down));
    handle_key(&mut app, key(KeyCode::Tab));
    assert_eq!(app.selected_peer, 2);
    handle_key(&mut app, key(KeyCode::Tab));
    assert_eq!(app.selected_peer, 0);
    handle_key(&mut app, key(KeyCode::Up));
    assert_eq!(app.selected_peer, 2);
    handle_key(&mut app, key(KeyCode::BackTab));
    assert_eq!(app.selected_peer, 1);
    handle_key(&mut app, key(KeyCode::Char('x')));
    assert_eq!(app.input_mode, InputMode::Normal);
    handle_key(&mut app, key(KeyCode::Char('i')));
    assert_eq!(app.input_mode, InputMode::Editing);
    let mut quit = TuiAppState::new();
    handle_key(&mut quit, KeyPress { code: KeyCode::Char('c'), ctrl: true });
    assert!(quit.should_quit);
    let mut quit = TuiAppState::new();
    handle_key(&mut quit, key(KeyCode::Char('q')));
    assert!(quit.should_quit);
}

fn typed(app: &mut TuiAppState, s: &str) {
    for c in s.chars() {
        assert!(handle_key(app, key(KeyCode::Char(c))).is_none());
    }
}

#[test]
fn editing_mode_commands() {
    let mut app = TuiAppState::new();
    handle_key(&mut app, key(KeyCode::Enter));
    assert_eq!(app.input_mode, InputMode::Editing);

    typed(&mut app, "/add  10.0.0.7 ");
    match handle_key(&mut app, key(KeyCode::Enter)) {
        Some(UserCommand::AddPeer { address }) => assert_eq!(address, "10.0.0.7"),
        other => panic!("unexpected {:?}", other),
    }
    assert!(app.input.is_empty());

    typed(&mut app, "hello");
    assert!(handle_key(&mut app, key(KeyCode::Enter)).is_none());

    app.add_peer(addr("p"));
    typed(&mut app, "helloo");
    handle_key(&mut app, key(KeyCode::Backspace));
    match handle_key(&mut app, key(KeyCode::Enter)) {
        Some(UserCommand::SendMessage { peer, text }) => {
            assert_eq!(peer, addr("p"));
            assert_eq!(text, "hello");
        }
        other => panic!("unexpected {:?}", other),
    }

    typed(&mut app, " /connect ");
    match handle_key(&mut app, key(KeyCode::Enter)) {
        Some(UserCommand::ConnectToPeer { peer }) => assert_eq!(peer, addr("p")),
        other => panic!("unexpected {:?}", other),
    }

    typed(&mut app, "/add   ");
    assert!(handle_key(&mut app, key(KeyCode::Enter)).is_none());
    assert!(handle_key(&mut app, key(KeyCode::Enter)).is_none());

    typed(&mut app, "draft");
    handle_key(&mut app, key(KeyCode::Esc));
    assert_eq!(app.input_mode, InputMode::Normal);
    assert!(app.input.is_empty());

    handle_key(&mut app, key(KeyCode::Char('i')));
    handle_key(&mut app, KeyPress { code: KeyCode::Char('c'), ctrl: true });
    assert!(app.should_quit);
    assert!(app.input.is_empty());
}

#[test]
fn stored_state_is_loaded_into_the_interface() {
    let mut app = TuiAppState::new();
    let peers = vec![Peer::new(addr("a")), Peer::new(addr("b")), Peer::new(addr("a"))];
    let mut chat = Chat::create(addr("b"));
    let mut mine = ChatMessage::create(SentBy::Me, text("sent"));
    mine.mark_sent();
    chat.add_message(mine);
    chat.add_message(ChatMessage::create(SentBy::Me, text("pending")));
    chat.add_message(ChatMessage::create(SentBy::Peer, text("reply")));
    load_state_into_tui_app(&mut app, peers, vec![chat]);
    assert_eq!(app.peers, vec![addr("a"), addr("b")]);
    app.selected_peer = 1;
    let shown = app.current_messages();
    assert_eq!(shown.len(), 3);
    assert!(shown[0].sent_by_me && shown[0].delivered);
    assert!(shown[1].sent_by_me && !shown[1].delivered);
    assert!(!shown[2].sent_by_me && shown[2].delivered);
}

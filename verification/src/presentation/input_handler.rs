use vstd::prelude::*;
use crate::presentation::app::{InputMode, TuiAppState};
use crate::presentation::text::{pop_char, push_char, same_text, strip_prefix, trim, trimmed, owned};
use crate::presentation::user_command::{UserCommand, UserCommandView};

verus! {

/// The keys the interface reacts to; any other key is `Other`.
#[derive(Debug, Clone, Copy, PartialEq, Eq, Structural)]
pub enum KeyCode {
    Char(char),
    Enter,
    Esc,
    Backspace,
    Tab,
    BackTab,
    Up,
    Down,
    Other,
}

/// A key press, with whether Control was held.
#[derive(Debug, Clone, Copy, PartialEq, Eq, Structural)]
pub struct KeyPress {
    pub code: KeyCode,
    pub ctrl: bool,
}

/// The part of the interface state that a key press can change.
pub struct KeyState {
    pub selected_peer: usize,
    pub input: Seq<char>,
    pub input_mode: InputMode,
    pub should_quit: bool,
}

pub open spec fn key_state(app: TuiAppState) -> KeyState {
    KeyState {
        selected_peer: app.selected_peer,
        input: app.input@,
        input_mode: app.input_mode,
        should_quit: app.should_quit,
    }
}

/// In normal mode: `q` or Control-C quits, `i` or Enter starts editing, Tab
/// or Down selects the next peer and BackTab or Up the previous one, going
/// round.
pub open spec fn normal_mode(app: TuiAppState, key: KeyPress) -> KeyState {
    let s = key_state(app);
    let n = app.peers.len();
    if key.code == KeyCode::Char('q') || (key.code == KeyCode::Char('c') && key.ctrl) {
        KeyState { should_quit: true, ..s }
    } else if key.code == KeyCode::Char('i') || key.code == KeyCode::Enter {
        KeyState { input_mode: InputMode::Editing, ..s }
    } else if (key.code == KeyCode::Tab || key.code == KeyCode::Down) && n > 0 {
        KeyState { selected_peer: ((app.selected_peer + 1) % (n as int)) as usize, ..s }
    } else if (key.code == KeyCode::BackTab || key.code == KeyCode::Up) && n > 0 {
        KeyState {
            selected_peer: if app.selected_peer == 0 {
                (n - 1) as usize
            } else {
                (app.selected_peer - 1) as usize
            },
            ..s
        }
    } else {
        s
    }
}

/// Tab and Down select the next peer, BackTab and Up the previous one, going
/// round; a selection within the list stays within it, and Tab followed by
/// BackTab (or Down followed by Up) gives the selection back. Nothing else
/// changes and no command is made.
pub proof fn selection_wraps_round(app: TuiAppState, forward: KeyPress, backward: KeyPress)
    requires
        app.peers.len() > 0,
        app.selected_peer < app.peers.len(),
        app.input_mode == InputMode::Normal,
        forward.code == KeyCode::Tab || forward.code == KeyCode::Down,
        backward.code == KeyCode::BackTab || backward.code == KeyCode::Up,
    ensures
        ({
            let n = app.peers.len() as int;
            let s = app.selected_peer as int;
            let f = normal_mode(app, forward);
            let b = normal_mode(app, backward);
            let moved = TuiAppState { selected_peer: f.selected_peer, ..app };
            &&& f.selected_peer == (s + 1) % n
            &&& b.selected_peer == (s + n - 1) % n
            &&& f.selected_peer < n && b.selected_peer < n
            &&& normal_mode(moved, backward).selected_peer == s
            &&& f.input == app.input@ && f.input_mode == app.input_mode
                && f.should_quit == app.should_quit
            &&& b.input == app.input@ && b.input_mode == app.input_mode
                && b.should_quit == app.should_quit
            &&& key_command(app, forward) is None
            &&& key_command(app, backward) is None
        }),
{
    let n = app.peers.len() as int;
    let s = app.selected_peer as int;
    if s + 1 < n {
        vstd::arithmetic::div_mod::lemma_small_mod((s + 1) as nat, n as nat);
    } else {
        vstd::arithmetic::div_mod::lemma_mod_self_0(n);
    }
    if s > 0 {
        vstd::arithmetic::div_mod::lemma_mod_add_multiples_vanish(s - 1, n);
        vstd::arithmetic::div_mod::lemma_small_mod((s - 1) as nat, n as nat);
    } else {
        vstd::arithmetic::div_mod::lemma_small_mod((n - 1) as nat, n as nat);
    }
}

/// What Enter in editing mode asks for, given the typed text: `/add` with
/// an address adds a peer, `/connect` connects to the selected peer, and any
/// other text is sent to the selected peer.
pub open spec fn entered_command(app: TuiAppState, text: Seq<char>) -> Option<UserCommandView> {
    if text.len() == 0 {
        None
    } else if "/add "@.is_prefix_of(text) {
        let address = trimmed(text.skip(5));
        if address.len() > 0 {
            Some(UserCommandView::AddPeer { address })
        } else {
            None
        }
    } else if trimmed(text) == "/connect"@ {
        match app.selected() {
            Some(peer) => Some(UserCommandView::ConnectToPeer { peer }),
            None => None,
        }
    } else {
        match app.selected() {
            Some(peer) => Some(UserCommandView::SendMessage { peer, text }),
            None => None,
        }
    }
}

/// In editing mode: Esc leaves editing and drops the text, Control-C quits,
/// Enter takes the text (see `entered_command`), Backspace removes the last
/// character and any other character is typed.
pub open spec fn editing_mode(app: TuiAppState, key: KeyPress) -> KeyState {
    let s = key_state(app);
    match key.code {
        KeyCode::Esc => KeyState { input_mode: InputMode::Normal, input: Seq::empty(), ..s },
        KeyCode::Char('c') if key.ctrl => KeyState { should_quit: true, ..s },
        KeyCode::Enter => KeyState { input: Seq::empty(), ..s },
        KeyCode::Backspace => KeyState {
            input: if app.input@.len() > 0 {
                app.input@.drop_last()
            } else {
                app.input@
            },
            ..s
        },
        KeyCode::Char(c) => KeyState { input: app.input@.push(c), ..s },
        _ => s,
    }
}

/// The command a key press asks for.
pub open spec fn key_command(app: TuiAppState, key: KeyPress) -> Option<UserCommandView> {
    if app.input_mode == InputMode::Editing && key.code == KeyCode::Enter {
        entered_command(app, app.input@)
    } else {
        None
    }
}

/// A command that names a peer names the selected one, peers[selected_peer]:
/// a message is sent only by Enter in editing mode, with the typed text, to
/// the selected peer, and a connection is asked for with the selected peer.
/// Enter on typed text that is neither `/add ...` nor `/connect` sends it to
/// the selected peer whenever one is selected.
pub proof fn commands_go_to_selected_peer(app: TuiAppState, key: KeyPress)
    ensures
        key_command(app, key) matches Some(UserCommandView::SendMessage { peer, text }) ==> {
            &&& app.input_mode == InputMode::Editing
            &&& key.code == KeyCode::Enter
            &&& app.selected_peer < app.peers.len()
            &&& peer == app.peers@[app.selected_peer as int]
            &&& text == app.input@
        },
        key_command(app, key) matches Some(UserCommandView::ConnectToPeer { peer }) ==> {
            &&& app.selected_peer < app.peers.len()
            &&& peer == app.peers@[app.selected_peer as int]
        },
        ({
            &&& app.input_mode == InputMode::Editing
            &&& key.code == KeyCode::Enter
            &&& app.selected_peer < app.peers.len()
            &&& app.input@.len() > 0
            &&& !"/add "@.is_prefix_of(app.input@)
            &&& trimmed(app.input@) != "/connect"@
        }) ==> key_command(app, key) == Some(
            UserCommandView::SendMessage {
                peer: app.peers@[app.selected_peer as int],
                text: app.input@,
            },
        ),
{
}

/// Reacts to a key press; returns the command it asks for, if any.
pub fn handle_key(app: &mut TuiAppState, key: KeyPress) -> (r: Option<UserCommand>)
    ensures
        old(app).wf() ==> final(app).wf(),
        key_state(*final(app)) == match old(app).input_mode {
            InputMode::Normal => normal_mode(*old(app), key),
            InputMode::Editing => editing_mode(*old(app), key),
        },
        match r {
            Some(c) => key_command(*old(app), key) == Some(c@),
            None => key_command(*old(app), key) is None,
        },
        final(app).peers == old(app).peers,
        final(app).connected_peers == old(app).connected_peers,
        final(app).chats == old(app).chats,
{
    match app.input_mode {
        InputMode::Normal => {
            handle_normal_mode(app, key);
            None
        },
        InputMode::Editing => handle_editing_mode(app, key),
    }
}

fn handle_normal_mode(app: &mut TuiAppState, key: KeyPress)
    requires
        old(app).input_mode == InputMode::Normal,
    ensures
        key_state(*final(app)) == normal_mode(*old(app), key),
        final(app).peers == old(app).peers,
        final(app).connected_peers == old(app).connected_peers,
        final(app).chats == old(app).chats,
{
    let n = app.peers.len();
    let code = key.code;
    if code == KeyCode::Char('q') || (code == KeyCode::Char('c') && key.ctrl) {
        app.should_quit = true;
    } else if code == KeyCode::Char('i') || code == KeyCode::Enter {
        app.input_mode = InputMode::Editing;
    } else if (code == KeyCode::Tab || code == KeyCode::Down) && n > 0 {
        app.selected_peer = if app.selected_peer < usize::MAX {
            (app.selected_peer + 1) % n
        } else {
            (app.selected_peer % n + 1) % n
        };
        proof {
            vstd::arithmetic::div_mod::lemma_add_mod_noop_right(
                1,
                old(app).selected_peer as int,
                n as int,
            );
        }
    } else if (code == KeyCode::BackTab || code == KeyCode::Up) && n > 0 {
        app.selected_peer = if app.selected_peer == 0 {
            n - 1
        } else {
            app.selected_peer - 1
        };
    }
}

fn handle_editing_mode(app: &mut TuiAppState, key: KeyPress) -> (r: Option<UserCommand>)
    requires
        old(app).input_mode == InputMode::Editing,
    ensures
        key_state(*final(app)) == editing_mode(*old(app), key),
        match r {
            Some(c) => key_command(*old(app), key) == Some(c@),
            None => key_command(*old(app), key) is None,
        },
        final(app).peers == old(app).peers,
        final(app).connected_peers == old(app).connected_peers,
        final(app).chats == old(app).chats,
{
    match key.code {
        KeyCode::Esc => {
            app.input_mode = InputMode::Normal;
            app.input = String::new();
            None
        },
        KeyCode::Char('c') if key.ctrl => {
            app.should_quit = true;
            None
        },
        KeyCode::Enter => {
            let mut input = String::new();
            std::mem::swap(&mut input, &mut app.input);
            entered(app, input)
        },
        KeyCode::Backspace => {
            let _ = pop_char(&mut app.input);
            None
        },
        KeyCode::Char(c) => {
            push_char(&mut app.input, c);
            None
        },
        _ => None,
    }
}

/// The command for a text taken with Enter.
fn entered(app: &TuiAppState, input: String) -> (r: Option<UserCommand>)
    ensures
        match r {
            Some(c) => entered_command(*app, input@) == Some(c@),
            None => entered_command(*app, input@) is None,
        },
{
    if input.as_str().is_empty() {
        return None;
    }
    match strip_prefix(input.as_str(), "/add ") {
        Some(rest) => {
            proof {
                reveal_strlit("/add ");
            }
            let address = trim(rest);
            if address.is_empty() {
                None
            } else {
                Some(UserCommand::AddPeer { address: owned(address) })
            }
        },
        None => {
            if same_text(trim(input.as_str()), "/connect") {
                match app.selected_peer_id() {
                    Some(peer) => Some(UserCommand::ConnectToPeer { peer: peer.clone() }),
                    None => None,
                }
            } else {
                match app.selected_peer_id() {
                    Some(peer) => Some(UserCommand::SendMessage { peer: peer.clone(), text: input }),
                    None => None,
                }
            }
        },
    }
}

} // verus!

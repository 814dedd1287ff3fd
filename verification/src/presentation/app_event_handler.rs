use vstd::prelude::*;
use crate::application::events::AppEvent;
use crate::presentation::app::{
    all_delivered, appended, display_message, has_address, log_of, with_peer, ChatLogs,
    DisplayMessage, TuiAppState,
};

verus! {

/// What `handle` makes of the known peers, the connected peers and the
/// message logs for `event`.
pub open spec fn handled(app: TuiAppState, event: AppEvent) -> (
    Seq<crate::domain::peer::PeerId>,
    Set<Seq<char>>,
    ChatLogs,
) {
    match event {
        AppEvent::PeerAdded(p) => (with_peer(app.peers@, p), app.connected(), app.logs()),
        AppEvent::PeerConnected(p) => (
            with_peer(app.peers@, p),
            app.connected().insert(p@),
            app.logs(),
        ),
        AppEvent::PeerDisconnected(p) => (app.peers@, app.connected().remove(p@), app.logs()),
        AppEvent::MessageSent { peer, content, delivered } => (
            app.peers@,
            app.connected(),
            appended(app.logs(), peer@, display_message(content, true, delivered)),
        ),
        AppEvent::MessageReceived { peer, content } => (
            with_peer(app.peers@, peer),
            app.connected(),
            appended(app.logs(), peer@, display_message(content, false, true)),
        ),
        AppEvent::MessagesDelivered { peer } => (
            app.peers@,
            app.connected(),
            all_delivered(app.logs(), peer@),
        ),
    }
}

/// Brings the user interface state up to date with an application event.
pub fn handle(app: &mut TuiAppState, event: AppEvent)
    requires
        old(app).tables_wf(),
    ensures
        final(app).tables_wf(),
        old(app).wf() ==> final(app).wf(),
        (final(app).peers@, final(app).connected(), final(app).logs()) == handled(*old(app), event),
        final(app).selected_peer == old(app).selected_peer,
        final(app).input == old(app).input,
        final(app).input_mode == old(app).input_mode,
        final(app).should_quit == old(app).should_quit,
{
    let ghost before = *app;
    match event {
        AppEvent::PeerAdded(peer) => {
            app.add_peer(peer);
        },
        AppEvent::PeerConnected(peer) => {
            app.connected_peers.insert(peer.clone(), ());
            app.add_peer(peer);
            assert(app.connected() =~= before.connected().insert(peer@));
        },
        AppEvent::PeerDisconnected(peer) => {
            let _ = app.connected_peers.remove(&peer);
            assert(app.connected() =~= before.connected().remove(peer@));
        },
        AppEvent::MessageSent { peer, content, delivered } => {
            app.add_message(&peer, &content, true, delivered);
        },
        AppEvent::MessageReceived { peer, content } => {
            app.add_message(&peer, &content, false, true);
            app.add_peer(peer);
        },
        AppEvent::MessagesDelivered { peer } => {
            app.mark_all_delivered(&peer);
        },
    }
}

/// A message event appends exactly one message, to the log of its peer: a
/// sent message as mine, delivered exactly when the event says so; a
/// received message as the peer's, delivered. The earlier messages of that
/// log, and every other log, stay as they were.
pub proof fn message_events_append_to_peer_log(app: TuiAppState, event: AppEvent)
    ensures
        match event {
            AppEvent::MessageSent { peer, content, delivered } => {
                let before = log_of(app.logs(), peer@);
                let after = log_of(handled(app, event).2, peer@);
                &&& after.len() == before.len() + 1
                &&& forall|i: int| 0 <= i < before.len() ==> #[trigger] after[i] == before[i]
                &&& after[before.len() as int].content@ == content@
                &&& after[before.len() as int].sent_by_me
                &&& after[before.len() as int].delivered == delivered
                &&& forall|k: Seq<char>|
                    k != peer@ ==> #[trigger] log_of(handled(app, event).2, k) == log_of(
                        app.logs(),
                        k,
                    )
            },
            AppEvent::MessageReceived { peer, content } => {
                let before = log_of(app.logs(), peer@);
                let after = log_of(handled(app, event).2, peer@);
                &&& after.len() == before.len() + 1
                &&& forall|i: int| 0 <= i < before.len() ==> #[trigger] after[i] == before[i]
                &&& after[before.len() as int].content@ == content@
                &&& !after[before.len() as int].sent_by_me
                &&& after[before.len() as int].delivered
                &&& forall|k: Seq<char>|
                    k != peer@ ==> #[trigger] log_of(handled(app, event).2, k) == log_of(
                        app.logs(),
                        k,
                    )
            },
            _ => true,
        },
{
}

/// The other events: a peer that is added, connects or sends a message is
/// then known (added at the end if it was not); a connected peer is in the
/// connected set and a disconnected one is not, all others keeping their
/// state; `MessagesDelivered` marks each message of mine to that peer
/// delivered and leaves the peer's messages, and every other log, as they
/// were. Events about peers leave the logs alone.
pub proof fn other_events_update_the_tables(app: TuiAppState, event: AppEvent)
    ensures
        ({
            let (peers, connected, logs) = handled(app, event);
            match event {
                AppEvent::PeerAdded(p) => {
                    &&& exists|i: int| 0 <= i < peers.len() && #[trigger] peers[i]@ == p@
                    &&& connected == app.connected()
                    &&& logs == app.logs()
                },
                AppEvent::PeerConnected(p) => {
                    &&& exists|i: int| 0 <= i < peers.len() && #[trigger] peers[i]@ == p@
                    &&& connected.contains(p@)
                    &&& forall|q: Seq<char>|
                        q != p@ ==> (#[trigger] connected.contains(q) == app.connected().contains(q))
                    &&& logs == app.logs()
                },
                AppEvent::PeerDisconnected(p) => {
                    &&& peers == app.peers@
                    &&& !connected.contains(p@)
                    &&& forall|q: Seq<char>|
                        q != p@ ==> (#[trigger] connected.contains(q) == app.connected().contains(q))
                    &&& logs == app.logs()
                },
                AppEvent::MessageReceived { peer, .. } => {
                    &&& exists|i: int| 0 <= i < peers.len() && #[trigger] peers[i]@ == peer@
                    &&& connected == app.connected()
                },
                AppEvent::MessagesDelivered { peer } => {
                    let before = log_of(app.logs(), peer@);
                    let after = log_of(logs, peer@);
                    &&& peers == app.peers@
                    &&& connected == app.connected()
                    &&& after.len() == before.len()
                    &&& forall|i: int|
                        0 <= i < before.len() ==> {
                            &&& (#[trigger] after[i]).content == before[i].content
                            &&& after[i].sent_by_me == before[i].sent_by_me
                            &&& after[i].delivered == (before[i].sent_by_me || before[i].delivered)
                        }
                    &&& forall|k: Seq<char>|
                        k != peer@ ==> #[trigger] log_of(logs, k) == log_of(app.logs(), k)
                },
                _ => true,
            }
        }),
{
    let (peers, connected, logs) = handled(app, event);
    match event {
        AppEvent::PeerAdded(p) => {
            if !has_address(app.peers@, p) {
                assert(peers[app.peers@.len() as int]@ == p@);
            } else {
                let i = choose|i: int| 0 <= i < app.peers@.len() && #[trigger] app.peers@[i]@ == p@;
                assert(peers[i]@ == p@);
            }
        },
        AppEvent::PeerConnected(p) => {
            if !has_address(app.peers@, p) {
                assert(peers[app.peers@.len() as int]@ == p@);
            } else {
                let i = choose|i: int| 0 <= i < app.peers@.len() && #[trigger] app.peers@[i]@ == p@;
                assert(peers[i]@ == p@);
            }
        },
        AppEvent::MessageReceived { peer, .. } => {
            if !has_address(app.peers@, peer) {
                assert(peers[app.peers@.len() as int]@ == peer@);
            } else {
                let i = choose|i: int| 0 <= i < app.peers@.len() && #[trigger] app.peers@[i]@ == peer@;
                assert(peers[i]@ == peer@);
            }
        },
        AppEvent::MessagesDelivered { peer } => {
            let before = log_of(app.logs(), peer@);
            let after = log_of(logs, peer@);
            assert forall|i: int| 0 <= i < before.len() implies {
                &&& (#[trigger] after[i]).content == before[i].content
                &&& after[i].sent_by_me == before[i].sent_by_me
                &&& after[i].delivered == (before[i].sent_by_me || before[i].delivered)
            } by {
                assert(app.logs().contains_key(peer@));
                assert(after[i] == delivered_if_mine_at(before, i));
            }
        },
        _ => {},
    }
}

/// `after` keeps every message of `before`, in place, with its text and
/// sender; a delivered message stays delivered.
pub open spec fn keeps_messages(before: ChatLogs, after: ChatLogs) -> bool {
    forall|k: Seq<char>, i: int|
        #![trigger log_of(before, k)[i]]
        0 <= i < log_of(before, k).len() ==> i < log_of(after, k).len() && ({
            let m = log_of(before, k)[i];
            let n = log_of(after, k)[i];
            &&& n.content == m.content
            &&& n.sent_by_me == m.sent_by_me
            &&& m.delivered ==> n.delivered
        })
}

/// Handling events never loses a known peer or a shown message: peers keep
/// their place in the list, and every message keeps its place, text and
/// sender (delivery flags only turn on).
pub proof fn handling_keeps_history(app: TuiAppState, event: AppEvent)
    ensures
        ({
            let (peers, connected, logs) = handled(app, event);
            &&& app.peers@.len() <= peers.len()
            &&& forall|i: int| 0 <= i < app.peers@.len() ==> #[trigger] peers[i] == app.peers@[i]
            &&& keeps_messages(app.logs(), logs)
        }),
{
    let (peers, connected, logs) = handled(app, event);
    let before = app.logs();
    assert forall|k: Seq<char>, i: int| #![trigger log_of(before, k)[i]] 0 <= i < log_of(before, k).len() implies i
        < log_of(logs, k).len() && ({
        let m = log_of(before, k)[i];
        let n = log_of(logs, k)[i];
        &&& n.content == m.content
        &&& n.sent_by_me == m.sent_by_me
        &&& m.delivered ==> n.delivered
    }) by {
        match event {
            AppEvent::MessagesDelivered { peer } => {
                if k == peer@ {
                    assert(before.contains_key(k));
                    assert(log_of(logs, k)[i] == delivered_if_mine_at(before[k], i));
                }
            },
            _ => {},
        }
    }
}

spec fn delivered_if_mine_at(log: Seq<DisplayMessage>, i: int) -> DisplayMessage {
    crate::presentation::app::delivered_if_mine(log[i])
}

} // verus!

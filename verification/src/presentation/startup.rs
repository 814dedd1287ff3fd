use vstd::prelude::*;
use crate::domain::chat::Chat;
use crate::domain::message::{ChatMessage, DeliveryStatus, SentBy};
use crate::domain::peer::{Peer, PeerId};
use crate::presentation::app::{appended, display_message, log_of, with_peer, ChatLogs, DisplayMessage, TuiAppState};

verus! {

/// `peers` after adding each of `added` in turn.
pub open spec fn with_peers(peers: Seq<PeerId>, added: Seq<Peer>) -> Seq<PeerId>
    decreases added.len(),
{
    if added.len() == 0 {
        peers
    } else {
        with_peer(with_peers(peers, added.drop_last()), added.last().spec_address())
    }
}

/// How a stored message is shown: mine or not, delivered or not.
pub open spec fn shown(m: ChatMessage) -> DisplayMessage {
    display_message(
        m.spec_content(),
        m.spec_sent_by() == SentBy::Me,
        m.spec_delivery_status() == DeliveryStatus::Sent,
    )
}

/// `logs` after appending each of `messages` to the log of `peer`.
pub open spec fn with_messages(logs: ChatLogs, peer: Seq<char>, messages: Seq<ChatMessage>) -> ChatLogs
    decreases messages.len(),
{
    if messages.len() == 0 {
        logs
    } else {
        appended(with_messages(logs, peer, messages.drop_last()), peer, shown(messages.last()))
    }
}

/// `logs` after appending the messages of each of `chats` in turn.
pub open spec fn with_chats(logs: ChatLogs, chats: Seq<Chat>) -> ChatLogs
    decreases chats.len(),
{
    if chats.len() == 0 {
        logs
    } else {
        with_messages(with_chats(logs, chats.drop_last()), chats.last().peer@, chats.last().messages@)
    }
}

/// No two of `chats` are with the same peer.
pub open spec fn distinct_chat_peers(chats: Seq<Chat>) -> bool {
    forall|i: int, j: int|
        0 <= i < chats.len() && 0 <= j < chats.len() && i != j ==> #[trigger] chats[i].peer@
            != #[trigger] chats[j].peer@
}

proof fn lemma_with_messages_log(logs: ChatLogs, p: Seq<char>, ms: Seq<ChatMessage>, q: Seq<char>)
    ensures
        log_of(with_messages(logs, p, ms), q) == if q == p {
            log_of(logs, p) + ms.map_values(|m: ChatMessage| shown(m))
        } else {
            log_of(logs, q)
        },
    decreases ms.len(),
{
    if ms.len() > 0 {
        lemma_with_messages_log(logs, p, ms.drop_last(), q);
        assert(ms.map_values(|m: ChatMessage| shown(m)) =~= ms.drop_last().map_values(
            |m: ChatMessage| shown(m),
        ).push(shown(ms.last())));
        if q == p {
            assert(log_of(logs, p) + ms.map_values(|m: ChatMessage| shown(m)) =~= (log_of(logs, p)
                + ms.drop_last().map_values(|m: ChatMessage| shown(m))).push(shown(ms.last())));
        }
    }
}

proof fn lemma_with_chats_log(logs: ChatLogs, chats: Seq<Chat>, q: Seq<char>)
    requires
        distinct_chat_peers(chats),
    ensures
        forall|k: int|
            0 <= k < chats.len() && #[trigger] chats[k].peer@ == q ==> log_of(
                with_chats(logs, chats),
                q,
            ) == log_of(logs, q) + chats[k].messages@.map_values(|m: ChatMessage| shown(m)),
        (forall|k: int| 0 <= k < chats.len() ==> #[trigger] chats[k].peer@ != q) ==> log_of(
            with_chats(logs, chats),
            q,
        ) == log_of(logs, q),
    decreases chats.len(),
{
    if chats.len() > 0 {
        let rest = chats.drop_last();
        let last = chats.last();
        assert(distinct_chat_peers(rest)) by {
            assert forall|i: int, j: int|
                0 <= i < rest.len() && 0 <= j < rest.len() && i != j implies #[trigger] rest[i].peer@
                != #[trigger] rest[j].peer@ by {
                assert(rest[i] == chats[i] && rest[j] == chats[j]);
            }
        }
        lemma_with_chats_log(logs, rest, q);
        lemma_with_messages_log(with_chats(logs, rest), last.peer@, last.messages@, q);
        if last.peer@ == q {
            assert forall|k: int| 0 <= k < rest.len() implies #[trigger] rest[k].peer@ != q by {
                assert(rest[k] == chats[k]);
                assert(chats[chats.len() - 1] == last);
            }
        }
        assert forall|k: int|
            0 <= k < chats.len() && #[trigger] chats[k].peer@ == q implies log_of(
            with_chats(logs, chats),
            q,
        ) == log_of(logs, q) + chats[k].messages@.map_values(|m: ChatMessage| shown(m)) by {
            if k < chats.len() - 1 {
                assert(rest[k] == chats[k]);
                assert(chats[chats.len() - 1] == last);
            }
        }
        if forall|k: int| 0 <= k < chats.len() ==> #[trigger] chats[k].peer@ != q {
            assert(chats[chats.len() - 1] == last);
            assert forall|k: int| 0 <= k < rest.len() implies #[trigger] rest[k].peer@ != q by {
                assert(rest[k] == chats[k]);
            }
        }
    }
}

/// Loading shows every stored chat in full. For chats with distinct peers,
/// the log of each chat's peer keeps what it held and then has one message
/// per stored message, in order, with that message's text, whether it is
/// mine, and whether it was sent; the log of a peer without a chat is left
/// as it was.
pub proof fn loading_shows_every_chat(logs: ChatLogs, chats: Seq<Chat>)
    requires
        distinct_chat_peers(chats),
    ensures
        forall|k: int|
            #![trigger chats[k]]
            0 <= k < chats.len() ==> {
                let log = log_of(with_chats(logs, chats), chats[k].peer@);
                let before = log_of(logs, chats[k].peer@);
                &&& log.len() == before.len() + chats[k].messages@.len()
                &&& forall|i: int| 0 <= i < before.len() ==> #[trigger] log[i] == before[i]
            },
        forall|k: int, j: int|
            #![trigger chats[k].messages@[j]]
            0 <= k < chats.len() && 0 <= j < chats[k].messages@.len() ==> {
                let log = log_of(with_chats(logs, chats), chats[k].peer@);
                let shown_at = log[log_of(logs, chats[k].peer@).len() + j];
                let m = chats[k].messages@[j];
                &&& shown_at.content@ == m.spec_content()@
                &&& shown_at.sent_by_me == (m.spec_sent_by() == SentBy::Me)
                &&& shown_at.delivered == (m.spec_delivery_status() == DeliveryStatus::Sent)
            },
        forall|q: Seq<char>|
            (forall|k: int| 0 <= k < chats.len() ==> #[trigger] chats[k].peer@ != q) ==> #[trigger] log_of(
                with_chats(logs, chats),
                q,
            ) == log_of(logs, q),
{
    assert forall|k: int| #![trigger chats[k]] 0 <= k < chats.len() implies {
        let log = log_of(with_chats(logs, chats), chats[k].peer@);
        let before = log_of(logs, chats[k].peer@);
        &&& log.len() == before.len() + chats[k].messages@.len()
        &&& forall|i: int| 0 <= i < before.len() ==> #[trigger] log[i] == before[i]
    } by {
        lemma_with_chats_log(logs, chats, chats[k].peer@);
    }
    assert forall|k: int, j: int|
        #![trigger chats[k].messages@[j]]
        0 <= k < chats.len() && 0 <= j < chats[k].messages@.len() implies {
        let log = log_of(with_chats(logs, chats), chats[k].peer@);
        let shown_at = log[log_of(logs, chats[k].peer@).len() + j];
        let m = chats[k].messages@[j];
        &&& shown_at.content@ == m.spec_content()@
        &&& shown_at.sent_by_me == (m.spec_sent_by() == SentBy::Me)
        &&& shown_at.delivered == (m.spec_delivery_status() == DeliveryStatus::Sent)
    } by {
        lemma_with_chats_log(logs, chats, chats[k].peer@);
        let m = chats[k].messages@[j];
        match m.spec_content() {
            crate::domain::message::MessageContent::Text(t) => {},
        }
    }
    assert forall|q: Seq<char>|
        (forall|k: int| 0 <= k < chats.len() ==> #[trigger] chats[k].peer@ != q) implies #[trigger] log_of(
        with_chats(logs, chats),
        q,
    ) == log_of(logs, q) by {
        lemma_with_chats_log(logs, chats, q);
    }
}

/// Shows the stored peers and chats: each peer is added, and the messages of
/// each chat are appended to the log of its peer.
pub fn load_state_into_tui_app(tui_app: &mut TuiAppState, peers: Vec<Peer>, chats: Vec<Chat>)
    requires
        old(tui_app).tables_wf(),
    ensures
        final(tui_app).tables_wf(),
        old(tui_app).wf() ==> final(tui_app).wf(),
        final(tui_app).peers@ == with_peers(old(tui_app).peers@, peers@),
        final(tui_app).logs() == with_chats(old(tui_app).logs(), chats@),
        final(tui_app).connected_peers == old(tui_app).connected_peers,
        final(tui_app).selected_peer == old(tui_app).selected_peer,
        final(tui_app).input == old(tui_app).input,
        final(tui_app).input_mode == old(tui_app).input_mode,
        final(tui_app).should_quit == old(tui_app).should_quit,
{
    let ghost start_peers = tui_app.peers@;
    let ghost start_logs = tui_app.logs();
    let mut i: usize = 0;
    while i < peers.len()
        invariant
            i <= peers.len(),
            tui_app.tables_wf(),
            old(tui_app).wf() ==> tui_app.wf(),
            tui_app.peers@ == with_peers(start_peers, peers@.take(i as int)),
            tui_app.logs() == start_logs,
            tui_app.connected_peers == old(tui_app).connected_peers,
            tui_app.selected_peer == old(tui_app).selected_peer,
            tui_app.input == old(tui_app).input,
            tui_app.input_mode == old(tui_app).input_mode,
            tui_app.should_quit == old(tui_app).should_quit,
        decreases peers.len() - i,
    {
        tui_app.add_peer(peers[i].address());
        proof {
            assert(peers@.take(i + 1).drop_last() == peers@.take(i as int));
        }
        i = i + 1;
    }
    assert(peers@.take(i as int) == peers@);
    let mut c: usize = 0;
    while c < chats.len()
        invariant
            c <= chats.len(),
            tui_app.tables_wf(),
            old(tui_app).wf() ==> tui_app.wf(),
            tui_app.peers@ == with_peers(start_peers, peers@),
            tui_app.logs() == with_chats(start_logs, chats@.take(c as int)),
            tui_app.connected_peers == old(tui_app).connected_peers,
            tui_app.selected_peer == old(tui_app).selected_peer,
            tui_app.input == old(tui_app).input,
            tui_app.input_mode == old(tui_app).input_mode,
            tui_app.should_quit == old(tui_app).should_quit,
        decreases chats.len() - c,
    {
        let chat = &chats[c];
        let ghost before = tui_app.logs();
        let mut j: usize = 0;
        while j < chat.messages.len()
            invariant
                j <= chat.messages.len(),
                tui_app.tables_wf(),
                old(tui_app).wf() ==> tui_app.wf(),
                tui_app.peers@ == with_peers(start_peers, peers@),
                tui_app.logs() == with_messages(before, chat.peer@, chat.messages@.take(j as int)),
                tui_app.connected_peers == old(tui_app).connected_peers,
                tui_app.selected_peer == old(tui_app).selected_peer,
                tui_app.input == old(tui_app).input,
                tui_app.input_mode == old(tui_app).input_mode,
                tui_app.should_quit == old(tui_app).should_quit,
            decreases chat.messages.len() - j,
        {
            let msg = &chat.messages[j];
            let sent_by_me = *msg.sent_by() == SentBy::Me;
            let delivered = *msg.delivery_status() == DeliveryStatus::Sent;
            tui_app.add_message(&chat.peer, msg.content(), sent_by_me, delivered);
            proof {
                assert(chat.messages@.take(j + 1).drop_last() == chat.messages@.take(j as int));
            }
            j = j + 1;
        }
        proof {
            assert(chat.messages@.take(j as int) == chat.messages@);
            assert(chats@.take(c + 1).drop_last() == chats@.take(c as int));
        }
        c = c + 1;
    }
    assert(chats@.take(c as int) == chats@);
}

} // verus!

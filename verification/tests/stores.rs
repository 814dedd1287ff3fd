use peer_pressure::address_map::AddressMap;
use peer_pressure::application::error::{ConnectionServiceError, RepositoryError};
use peer_pressure::application::events::AppEvent;
use peer_pressure::domain::chat::Chat;
use peer_pressure::domain::message::{ChatMessage, MessageContent, SentBy};
use peer_pressure::domain::peer::{Peer, PeerAddress};
use peer_pressure::infrastructure::chat_store::ChatStore;
use peer_pressure::infrastructure::connections::{ConnectAttempt, OutboundConnections, ProbeResult};
use peer_pressure::infrastructure::peer_store::PeerStore;

fn addr(s: &str) -> PeerAddress {
    PeerAddress::new(s.into())
}

#[test]
fn address_map_insert_get_remove() {
    let mut m: AddressMap<u32> = AddressMap::new();
    m.insert(addr("a"), 1);
    m.insert(addr("b"), 2);
    m.insert(addr("a"), 3);
    assert_eq!(m.len(), 2);
    assert_eq!(m.get(&addr("a")), Some(&3));
    assert_eq!(m.get(&addr("b")), Some(&2));
    assert!(m.contains(&addr("b")));
    assert_eq!(m.remove(&addr("a")), Some(3));
    assert_eq!(m.remove(&addr("a")), None);
    assert_eq!(m.get(&addr("a")), None);
    assert_eq!(m.len(), 1);
    assert_eq!(m.key_at(0), &addr("b"));
    assert_eq!(m.value_at(0), &2);
}

#[test]
fn chat_store_reads_back_saved_chat() {
    let mut store = ChatStore::new();
    let peer = addr("1.2.3.4");
    assert!(store.get(&peer).is_none());
    let mut chat = Chat::create(peer.clone());
    chat.add_message(ChatMessage::create(SentBy::Me, MessageContent::Text("hi".into())));
    let id = *chat.messages[0].id();
    store.save(chat);
    let got = store.get(&peer).unwrap();
    assert_eq!(got.peer, peer);
    assert_eq!(got.messages.len(), 1);
    assert_eq!(*got.messages[0].id(), id);

    let replacement = Chat::create(peer.clone());
    store.save(replacement);
    assert!(store.get(&peer).unwrap().messages.is_empty());
    assert_eq!(store.list().len(), 1);
}

#[test]
fn chat_store_save_written_keeps_cache_on_failure() {
    let mut store = ChatStore::new();
    let peer = addr("p");
    let r = store.save_written(
        Chat::create(peer.clone()),
        Err(RepositoryError::PersistenceError("no space".into())),
    );
    assert!(matches!(r, Err(RepositoryError::PersistenceError(_))));
    assert!(store.get(&peer).is_none());
    assert!(store.save_written(Chat::create(peer.clone()), Ok(())).is_ok());
    assert!(store.get(&peer).is_some());
}

#[test]
fn chat_store_lists_each_peer_once() {
    let mut store = ChatStore::new();
    store.save(Chat::create(addr("x")));
    store.save(Chat::create(addr("y")));
    store.save(Chat::create(addr("x")));
    let listed = store.list();
    assert_eq!(listed.len(), 2);
    let mut names: Vec<String> = listed.iter().map(|c| c.peer.to_string()).collect();
    names.sort();
    assert_eq!(names, vec!["x".to_string(), "y".to_string()]);
}

#[test]
fn peer_store_add_get_list_remove() {
    let mut store = PeerStore::new();
    store.add(Peer::new(addr("a")));
    store.add(Peer::new(addr("b")));
    store.add(Peer::new(addr("a")));
    assert_eq!(store.list().len(), 2);
    assert_eq!(store.get(&addr("a")).unwrap().address(), addr("a"));
    store.remove(&addr("a"));
    assert!(store.get(&addr("a")).is_none());
    assert_eq!(store.list().len(), 1);
    let r = store.remove_deleted(&addr("b"), Err(RepositoryError::PersistenceError("busy".into())));
    assert!(r.is_err());
    assert!(store.get(&addr("b")).is_some());
    let r = store.add_written(Peer::new(addr("c")), Err(RepositoryError::AlreadyExists));
    assert!(matches!(r, Err(RepositoryError::AlreadyExists)));
    assert!(store.get(&addr("c")).is_none());
}

#[test]
fn outbound_connect_send_and_drop() {
    let mut conns: OutboundConnections<u8> = OutboundConnections::new();
    let peer = addr("127.0.0.1");

    let (r, ev) = conns.connect(peer.clone(), ConnectAttempt::InvalidAddress);
    assert!(matches!(r, Err(ConnectionServiceError::InvalidAddress(_))));
    assert!(ev.is_none());
    let (r, _) = conns.connect(peer.clone(), ConnectAttempt::Failed("refused".into()));
    assert!(matches!(r, Err(ConnectionServiceError::ConnectionError(s)) if s == "refused"));
    assert!(!conns.is_connected(&peer));

    let (r, ev) = conns.connect(peer.clone(), ConnectAttempt::Established(7));
    assert!(r.is_ok());
    assert_eq!(ev, Some(AppEvent::PeerConnected(peer.clone())));
    assert!(conns.is_connected(&peer));

    let c = conns.take_for_send(&peer).unwrap();
    assert_eq!(c, 7);
    let c = OutboundConnections::after_probe(peer.clone(), c, ProbeResult::Alive).unwrap();
    assert!(conns.after_transmit(peer.clone(), c, Ok(())).is_ok());
    assert!(conns.is_connected(&peer));

    let c = conns.take_for_send(&peer).unwrap();
    match OutboundConnections::after_probe(peer.clone(), c, ProbeResult::Closed) {
        Err((ConnectionServiceError::SendError(s), ev)) => {
            assert_eq!(s, "Connection closed by peer");
            assert_eq!(ev, AppEvent::PeerDisconnected(peer.clone()));
        }
        _ => panic!("a closed connection must fail the send"),
    }
    assert!(!conns.is_connected(&peer));
    assert!(matches!(conns.take_for_send(&peer), Err(ConnectionServiceError::NotConnected)));
}

#[test]
fn outbound_failed_transmit_drops_connection() {
    let mut conns: OutboundConnections<u8> = OutboundConnections::new();
    let peer = addr("10.1.1.1");
    let _ = conns.connect(peer.clone(), ConnectAttempt::Established(1));
    let c = conns.take_for_send(&peer).unwrap();
    match OutboundConnections::after_probe(peer.clone(), c, ProbeResult::Failed("reset".into())) {
        Err((ConnectionServiceError::SendError(s), _)) => assert_eq!(s, "reset"),
        _ => panic!("a failed probe must fail the send"),
    }
    let _ = conns.connect(peer.clone(), ConnectAttempt::Established(2));
    let c = conns.take_for_send(&peer).unwrap();
    let r = conns.after_transmit(peer.clone(), c, Err("broken pipe".into()));
    assert!(matches!(r, Err((ConnectionServiceError::SendError(_), AppEvent::PeerDisconnected(_)))));
    assert!(!conns.is_connected(&peer));
    let _ = conns.connect(peer.clone(), ConnectAttempt::Established(3));
    assert_eq!(conns.disconnect(peer.clone()), AppEvent::PeerDisconnected(peer.clone()));
    assert!(!conns.is_connected(&peer));
}

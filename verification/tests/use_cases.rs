use peer_pressure::application::effects::{Effect, Outcome, UseCaseRun};
use peer_pressure::application::error::{ApplicationError, ConnectionServiceError, RepositoryError};
use peer_pressure::application::events::AppEvent;
use peer_pressure::application::use_cases::add_peer::AddPeer;
use peer_pressure::application::use_cases::connect_and_resend::ConnectAndResend;
use peer_pressure::application::use_cases::peer_connected::PeerConnected;
use peer_pressure::application::use_cases::peer_disconnected::PeerDisconnected;
use peer_pressure::application::use_cases::receive_message::ReceiveMessage;
use peer_pressure::application::use_cases::send_message::SendMessage;
use peer_pressure::domain::chat::Chat;
use peer_pressure::domain::message::{ChatMessage, DeliveryStatus, MessageContent, SentBy};
use peer_pressure::domain::peer::{Peer, PeerAddress};
use peer_pressure::infrastructure::chat_store::ChatStore;
use peer_pressure::infrastructure::peer_store::PeerStore;

/// An environment held in memory: the stores, a network that fails on
/// demand, and the announced events.
struct Env {
    peers: PeerStore,
    chats: ChatStore,
    should_fail: bool,
    fail_store: bool,
    sent: Vec<(PeerAddress, ChatMessage)>,
    connected: Vec<PeerAddress>,
    events: Vec<AppEvent>,
}

impl Env {
    fn new() -> Self {
        Env {
            peers: PeerStore::new(),
            chats: ChatStore::new(),
            should_fail: false,
            fail_store: false,
            sent: vec![],
            connected: vec![],
            events: vec![],
        }
    }

    fn failing() -> Self {
        Env { should_fail: true, ..Env::new() }
    }

    fn perform(&mut self, effect: Effect) -> Outcome {
        match effect {
            Effect::LookupPeer(a) => Outcome::PeerLookedUp(Ok(self.peers.get(&a))),
            Effect::StorePeer(p) => {
                self.peers.add(p);
                Outcome::PeerStored(Ok(()))
            }
            Effect::LoadChat(p) => Outcome::ChatLoaded(Ok(self.chats.get(&p))),
            Effect::StoreChat(c) => {
                if self.fail_store {
                    return Outcome::ChatStored(Err(RepositoryError::PersistenceError(
                        "disk full".into(),
                    )));
                }
                self.chats.save(c);
                Outcome::ChatStored(Ok(()))
            }
            Effect::Connect(a) => {
                if self.should_fail {
                    return Outcome::Connected(Err(ConnectionServiceError::ConnectionError(
                        "mock failure".into(),
                    )));
                }
                self.connected.push(a);
                Outcome::Connected(Ok(()))
            }
            Effect::Deliver(a, m) => {
                if self.should_fail {
                    return Outcome::Delivered(Err(ConnectionServiceError::SendError(
                        "mock failure".into(),
                    )));
                }
                self.sent.push((a, m));
                Outcome::Delivered(Ok(()))
            }
            Effect::Emit(e) => {
                self.events.push(e);
                Outcome::Emitted
            }
            Effect::Finish(_) => panic!("a finished run has nothing to perform"),
        }
    }

    fn run<R: UseCaseRun>(&mut self, run: R) -> Result<(), ApplicationError> {
        self.run_counting(run).0
    }

    /// Runs to the end; also gives how many effects were answered.
    fn run_counting<R: UseCaseRun>(&mut self, mut run: R) -> (Result<(), ApplicationError>, usize) {
        for answered in 0..1000 {
            match run.pending() {
                Effect::Finish(r) => return (r, answered),
                e => {
                    let o = self.perform(e);
                    run.resume(o);
                }
            }
        }
        panic!("the run did not finish");
    }
}

fn make_unsent_msg(text: &str) -> ChatMessage {
    ChatMessage::create(SentBy::Me, MessageContent::Text(text.into()))
}

fn make_sent_msg(text: &str) -> ChatMessage {
    let mut m = ChatMessage::create(SentBy::Me, MessageContent::Text(text.into()));
    m.mark_sent();
    m
}

#[test]
fn add_peer_success() {
    let mut env = Env::new();
    let add_peer = AddPeer::new();
    let peer_address = PeerAddress::new("peer1".into());
    env.run(add_peer.execute(peer_address.clone())).unwrap();

    let retrieved_peer = env.peers.get(&peer_address).unwrap();
    assert_eq!(retrieved_peer.address(), peer_address);
    assert_eq!(env.events, vec![AppEvent::PeerAdded(peer_address)]);
}

#[test]
fn add_peer_already_exists() {
    let mut env = Env::new();
    let add_peer = AddPeer::new();
    let peer_address = PeerAddress::new("peer1".into());
    let result1 = env.run(add_peer.execute(peer_address.clone()));
    assert!(result1.is_ok());
    assert_eq!(env.events.len(), 1);
    let result2 = env.run(add_peer.execute(peer_address.clone()));
    assert!(matches!(result2, Err(ApplicationError::PeerAlreadyExists)));
    assert_eq!(env.events.len(), 1);
}

#[test]
fn add_peer_store_failure_is_reported_and_not_announced() {
    let add_peer = AddPeer::new();
    let mut run = add_peer.execute(PeerAddress::new("peer1".into()));
    assert!(matches!(run.pending(), Effect::LookupPeer(_)));
    run.resume(Outcome::PeerLookedUp(Err(RepositoryError::NotFound)));
    assert!(matches!(run.pending(), Effect::StorePeer(_)));
    run.resume(Outcome::PeerStored(Err(RepositoryError::AlreadyExists)));
    assert!(matches!(
        run.pending(),
        Effect::Finish(Err(ApplicationError::RepositoryError(RepositoryError::AlreadyExists)))
    ));
}

#[test]
fn unrelated_outcome_is_ignored() {
    let add_peer = AddPeer::new();
    let mut run = add_peer.execute(PeerAddress::new("peer1".into()));
    run.resume(Outcome::Emitted);
    assert!(matches!(run.pending(), Effect::LookupPeer(a) if a.as_str() == "peer1"));
}

#[test]
fn resends_unsent_messages() {
    let peer = PeerAddress::new("1.2.3.4".into());
    let mut env = Env::new();
    let mut chat = Chat::create(peer.clone());
    chat.add_message(make_unsent_msg("a"));
    chat.add_message(make_unsent_msg("b"));
    env.chats.save(chat);

    let uc = ConnectAndResend::new();
    env.run(uc.execute(peer.clone())).unwrap();

    let chat = env.chats.get(&peer).unwrap();
    assert!(chat.messages.iter().all(|m| m.delivery_status() == &DeliveryStatus::Sent));
    assert_eq!(env.sent.len(), 2);
    assert_eq!(env.events[0], AppEvent::MessagesDelivered { peer });
}

#[test]
fn skips_already_sent() {
    let peer = PeerAddress::new("1.2.3.4".into());
    let mut env = Env::new();
    let mut chat = Chat::create(peer.clone());
    chat.add_message(make_sent_msg("old"));
    chat.add_message(make_unsent_msg("new"));
    env.chats.save(chat);

    let uc = ConnectAndResend::new();
    env.run(uc.execute(peer.clone())).unwrap();

    assert_eq!(env.sent.len(), 1); // only "new" resent
    assert_eq!(env.sent[0].1.content, MessageContent::Text("new".into()));
}

#[test]
fn connect_failure() {
    let peer = PeerAddress::new("1.2.3.4".into());
    let mut env = Env::failing();
    let uc = ConnectAndResend::new();

    let result = env.run(uc.execute(peer));
    assert!(matches!(
        result,
        Err(ApplicationError::NetworkError(ConnectionServiceError::ConnectionError(_)))
    ));
    assert!(env.events.is_empty());
}

#[test]
fn resend_with_nothing_pending_stores_and_announces_nothing() {
    let peer = PeerAddress::new("1.2.3.4".into());
    let mut env = Env::new();
    let mut chat = Chat::create(peer.clone());
    chat.add_message(make_sent_msg("old"));
    chat.add_message(ChatMessage::create(SentBy::Peer, MessageContent::Text("hi".into())));
    env.chats.save(chat);
    env.fail_store = true;

    let uc = ConnectAndResend::new();
    env.run(uc.execute(peer.clone())).unwrap();
    assert!(env.sent.is_empty());
    assert!(env.events.is_empty());
    assert_eq!(env.connected, vec![peer]);
}

#[test]
fn resend_keeps_failed_deliveries_unsent() {
    let peer = PeerAddress::new("1.2.3.4".into());
    let mut chat = Chat::create(peer.clone());
    chat.add_message(make_unsent_msg("a"));
    chat.add_message(ChatMessage::create(SentBy::Peer, MessageContent::Text("x".into())));
    chat.add_message(make_unsent_msg("b"));
    let uc = ConnectAndResend::new();
    let mut run = uc.execute(peer.clone());
    run.resume(Outcome::Connected(Ok(())));
    run.resume(Outcome::ChatLoaded(Ok(Some(chat))));
    match run.pending() {
        Effect::Deliver(p, m) => {
            assert_eq!(p, peer);
            assert_eq!(m.content, MessageContent::Text("a".into()));
        }
        e => panic!("unexpected {:?}", e),
    }
    run.resume(Outcome::Delivered(Err(ConnectionServiceError::NotConnected)));
    match run.pending() {
        Effect::Deliver(_, m) => assert_eq!(m.content, MessageContent::Text("b".into())),
        e => panic!("unexpected {:?}", e),
    }
    run.resume(Outcome::Delivered(Ok(())));
    match run.pending() {
        Effect::StoreChat(c) => {
            assert_eq!(c.messages.len(), 3);
            assert_eq!(c.messages[0].delivery_status(), &DeliveryStatus::NotSent);
            assert_eq!(c.messages[1].delivery_status(), &DeliveryStatus::Sent);
            assert_eq!(c.messages[2].delivery_status(), &DeliveryStatus::Sent);
        }
        e => panic!("unexpected {:?}", e),
    }
    run.resume(Outcome::ChatStored(Err(RepositoryError::PersistenceError("x".into()))));
    assert!(matches!(
        run.pending(),
        Effect::Finish(Err(ApplicationError::RepositoryError(_)))
    ));
}

#[test]
fn send_message_success() {
    let mut env = Env::new();
    let uc = SendMessage::new();
    let peer = PeerAddress::new("1.2.3.4".into());

    env.run(uc.execute(peer.clone(), "hello".into())).unwrap();

    let chat = env.chats.get(&peer).unwrap();
    assert_eq!(chat.messages.len(), 1);
    assert_eq!(chat.messages[0].delivery_status(), &DeliveryStatus::Sent);
    assert_eq!(env.sent.len(), 1);

    assert_eq!(
        env.events[0],
        AppEvent::MessageSent {
            peer,
            content: MessageContent::Text("hello".into()),
            delivered: true,
        }
    );
}

#[test]
fn send_message_network_failure() {
    let mut env = Env::failing();
    let uc = SendMessage::new();
    let peer = PeerAddress::new("1.2.3.4".into());

    env.run(uc.execute(peer.clone(), "hello".into())).unwrap();

    let chat = env.chats.get(&peer).unwrap();
    assert_eq!(chat.messages[0].delivery_status(), &DeliveryStatus::NotSent);

    assert_eq!(
        env.events[0],
        AppEvent::MessageSent {
            peer,
            content: MessageContent::Text("hello".into()),
            delivered: false,
        }
    );
}

#[test]
fn send_message_store_failure_announces_nothing() {
    let mut env = Env::new();
    env.fail_store = true;
    let uc = SendMessage::new();
    let peer = PeerAddress::new("1.2.3.4".into());
    let r = env.run(uc.execute(peer, "hello".into()));
    assert!(matches!(r, Err(ApplicationError::RepositoryError(_))));
    assert!(env.events.is_empty());
}

#[test]
fn send_message_appends_to_existing_chat() {
    let mut env = Env::new();
    let peer = PeerAddress::new("1.2.3.4".into());
    let mut chat = Chat::create(peer.clone());
    chat.add_message(make_sent_msg("first"));
    env.chats.save(chat);
    env.run(SendMessage::new().execute(peer.clone(), "second".into())).unwrap();
    let chat = env.chats.get(&peer).unwrap();
    assert_eq!(chat.messages.len(), 2);
    assert_eq!(chat.messages[1].content, MessageContent::Text("second".into()));
    assert_eq!(chat.messages[1].sent_by(), &SentBy::Me);
}

#[test]
fn receive_message_records_and_announces() {
    let mut env = Env::new();
    let from = PeerAddress::new("5.6.7.8".into());
    let uc = ReceiveMessage::new();
    env.run(uc.receive_message(from.clone(), MessageContent::Text("yo".into()))).unwrap();
    let chat = env.chats.get(&from).unwrap();
    assert_eq!(chat.messages.len(), 1);
    assert_eq!(chat.messages[0].sent_by(), &SentBy::Peer);
    assert_eq!(chat.messages[0].delivery_status(), &DeliveryStatus::Sent);
    assert_eq!(
        env.events,
        vec![AppEvent::MessageReceived { peer: from, content: MessageContent::Text("yo".into()) }]
    );
}

#[test]
fn receive_message_announces_even_if_store_fails() {
    let mut env = Env::new();
    env.fail_store = true;
    let from = PeerAddress::new("5.6.7.8".into());
    let r = env.run(ReceiveMessage::new().receive_message(from.clone(), MessageContent::Text("yo".into())));
    assert!(r.is_ok());
    assert_eq!(env.events.len(), 1);
}

#[test]
fn peer_connection_events() {
    let a = PeerAddress::new("9.9.9.9".into());
    assert_eq!(PeerConnected::new().execute(a.clone()), AppEvent::PeerConnected(a.clone()));
    assert_eq!(PeerDisconnected::new().execute(&a), AppEvent::PeerDisconnected(a.clone()));
    let _ = Peer::new(a);
}

#[test]
fn runs_finish_once_each_effect_is_answered() {
    let peer = PeerAddress::new("1.2.3.4".into());
    let mut env = Env::new();
    let mut chat = Chat::create(peer.clone());
    chat.add_message(make_unsent_msg("a"));
    chat.add_message(make_sent_msg("b"));
    chat.add_message(make_unsent_msg("c"));
    env.chats.save(chat);
    // connect, load, two deliveries, store, announce
    let (r, answered) = env.run_counting(ConnectAndResend::new().execute(peer.clone()));
    assert!(r.is_ok());
    assert_eq!(answered, 6);
    // lookup, store, announce
    let (r, answered) = env.run_counting(AddPeer::new().execute(PeerAddress::new("p".into())));
    assert!(r.is_ok());
    assert_eq!(answered, 3);
    // deliver, load, store, announce
    let send = SendMessage::new();
    let (r, answered) = env.run_counting(send.execute(peer.clone(), "hi".into()));
    assert!(r.is_ok());
    assert_eq!(answered, 4);
    // a failed connection ends the run at once
    let mut failing = Env::failing();
    let (r, answered) = failing.run_counting(ConnectAndResend::new().execute(peer));
    assert!(r.is_err());
    assert_eq!(answered, 1);
}

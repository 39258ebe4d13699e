use charmev_p2p::events::MeshEvent;
use charmev_p2p::session::{DisconnectAction, MeshSession, Phase};

fn msg(bytes: &[u8]) -> MeshEvent {
    MeshEvent::MessageReceived { payload: bytes.to_vec() }
}

#[test]
fn fresh_session_is_idle_and_empty() {
    let mut s = MeshSession::new();
    assert_eq!(s.phase, Phase::Idle);
    assert!(s.peek_topic().is_none());
    assert_eq!(s.queue_len(), 0);
    assert_eq!(s.retrieve_next_event(), None);
}

#[test]
fn connect_sets_topic_and_listens() {
    let mut s = MeshSession::new();
    let r = s.connect("/ip4/127.0.0.1/tcp/4001");
    assert!(r.is_ok());
    assert_eq!(s.phase, Phase::Listening);
    assert_eq!(s.peek_topic().unwrap().name(), "charmev");
    assert_eq!(s.queue_len(), 0);
}

#[test]
fn accepted_dial_enqueues_one_peer_connected_before_any_message() {
    let mut s = MeshSession::new();
    s.connect("/ip4/127.0.0.1/tcp/4001").unwrap();
    s.record_dial_outcome(true);
    assert_eq!(s.phase, Phase::Connected);
    assert_eq!(s.queue_len(), 1);
    let exit = s.on_swarm_event(msg(b"hello mesh"));
    assert!(!exit);
    // the peer-connected record comes out before the message payload
    assert_eq!(s.retrieve_next_event(), Some(vec![1u8]));
    assert_eq!(s.retrieve_next_event(), Some(b"hello mesh".to_vec()));
    assert_eq!(s.retrieve_next_event(), None);
}

#[test]
fn failed_dial_enqueues_one_connection_failed_record() {
    let mut s = MeshSession::new();
    s.connect("/ip4/127.0.0.1/tcp/4001").unwrap();
    s.record_dial_outcome(false);
    assert_eq!(s.phase, Phase::Listening);
    assert_eq!(s.retrieve_next_event(), Some(vec![2u8]));
    assert_eq!(s.retrieve_next_event(), None);
}

#[test]
fn subscription_enqueues_its_record() {
    let mut s = MeshSession::new();
    s.connect("/ip4/127.0.0.1/tcp/4001").unwrap();
    let exit = s.on_swarm_event(MeshEvent::PeerSubscribed);
    assert!(!exit);
    assert_eq!(s.retrieve_next_event(), Some(vec![3u8]));
}

#[test]
fn messages_are_retrieved_in_publication_order() {
    let mut s = MeshSession::new();
    s.connect("/ip4/127.0.0.1/tcp/4001").unwrap();
    let m1 = b"first payload".to_vec();
    let m2 = b"second payload".to_vec();
    s.on_swarm_event(MeshEvent::MessageReceived { payload: m1.clone() });
    s.on_swarm_event(MeshEvent::NewListenAddr);
    s.on_swarm_event(MeshEvent::MessageReceived { payload: m2.clone() });
    assert_eq!(s.retrieve_next_event(), Some(m1));
    assert_eq!(s.retrieve_next_event(), Some(m2));
    assert_eq!(s.retrieve_next_event(), None);
}

#[test]
fn delivered_payload_equals_published_payload() {
    let mut s = MeshSession::new();
    s.connect("/ip4/127.0.0.1/tcp/4001").unwrap();
    let payload: Vec<u8> = (0u8..=255).collect();
    s.on_swarm_event(MeshEvent::MessageReceived { payload: payload.clone() });
    assert_eq!(s.retrieve_next_event(), Some(payload));
}

#[test]
fn silent_events_enqueue_nothing() {
    let mut s = MeshSession::new();
    s.connect("/ip4/127.0.0.1/tcp/4001").unwrap();
    let before = s.queue_len();
    for _ in 0..10 {
        s.on_swarm_event(MeshEvent::ProtocolInternal);
    }
    s.on_swarm_event(MeshEvent::NewListenAddr);
    assert_eq!(s.queue_len(), before);
}

#[test]
fn connection_closed_ends_the_session_loop() {
    let mut s = MeshSession::new();
    s.connect("/ip4/127.0.0.1/tcp/4001").unwrap();
    s.record_dial_outcome(true);
    let exit = s.on_swarm_event(MeshEvent::ConnectionClosed);
    assert!(exit);
    assert_eq!(s.phase, Phase::Closed);
}

#[test]
fn queue_survives_session_replacement() {
    let mut s = MeshSession::new();
    s.connect("/ip4/127.0.0.1/tcp/4001").unwrap();
    s.on_swarm_event(msg(b"left over"));
    s.on_swarm_event(MeshEvent::ConnectionClosed);
    // a second connect replaces the session but never drops queued records
    s.connect("/ip4/127.0.0.1/tcp/4002").unwrap();
    assert_eq!(s.phase, Phase::Listening);
    assert_eq!(s.retrieve_next_event(), Some(b"left over".to_vec()));
}

#[test]
fn two_nodes_exchange_one_message_each() {
    // model-level mirror of two processes dialing each other: both confirm
    // the subscription and deliver the other's exact bytes
    let mut a = MeshSession::new();
    let mut b = MeshSession::new();
    a.connect("/ip4/127.0.0.1/tcp/4001").unwrap();
    b.connect("/ip4/127.0.0.1/tcp/4002").unwrap();
    a.record_dial_outcome(true);
    b.record_dial_outcome(true);
    a.on_swarm_event(MeshEvent::PeerSubscribed);
    b.on_swarm_event(MeshEvent::PeerSubscribed);
    a.on_swarm_event(MeshEvent::MessageReceived { payload: b"from b".to_vec() });
    b.on_swarm_event(MeshEvent::MessageReceived { payload: b"from a".to_vec() });
    assert_eq!(a.retrieve_next_event(), Some(vec![1u8]));
    assert_eq!(a.retrieve_next_event(), Some(vec![3u8]));
    assert_eq!(a.retrieve_next_event(), Some(b"from b".to_vec()));
    assert_eq!(b.retrieve_next_event(), Some(vec![1u8]));
    assert_eq!(b.retrieve_next_event(), Some(vec![3u8]));
    assert_eq!(b.retrieve_next_event(), Some(b"from a".to_vec()));
}

#[test]
fn disconnect_with_active_session_closes_the_connection() {
    let mut s = MeshSession::new();
    s.connect("/ip4/127.0.0.1/tcp/4001").unwrap();
    s.record_dial_outcome(true);
    let queued_before = s.queue_len();
    let peer = libp2p::PeerId::random().to_string();
    match s.disconnect(&peer) {
        Ok(DisconnectAction::CloseConnection { .. }) => {}
        other => panic!("expected a close action, got {:?}", other.is_ok()),
    }
    // the session phase only changes once the loop sees the closed event,
    // and deciding to disconnect enqueues nothing
    assert_eq!(s.phase, Phase::Connected);
    assert_eq!(s.queue_len(), queued_before);
}

use gossipnet::FullAddr;
use gossipnet::GossipConfig;
use gossipnet::GossipEngine;
use gossipnet::LowEvent;
use gossipnet::MessageId;
use gossipnet::NetAddr;
use gossipnet::Network;
use gossipnet::PeerId;
use gossipnet::PollOutcome;
use gossipnet::PublishError;
use gossipnet::StreamItem;
use gossipnet::ValidationMode;

fn strict_config() -> GossipConfig {
    GossipConfig { heartbeat_secs: 1, validation: ValidationMode::Strict }
}

fn header() -> Vec<u8> {
    b"header".to_vec()
}

#[test]
fn test_message_id_is_content_hash() {
    // Two distinct publishers sending identical bytes produce identical ids.
    let payload = b"hello world".to_vec();
    let mut engine_a = GossipEngine::new(PeerId::new(1), strict_config());
    let mut engine_b = GossipEngine::new(PeerId::new(2), strict_config());
    let id_a = engine_a.publish(&header(), &payload).unwrap();
    let id_b = engine_b.publish(&header(), &payload).unwrap();
    assert_eq!(id_a, id_b);
    assert_eq!(id_a, MessageId::for_payload(&payload));
}

#[test]
fn test_message_id_deterministic_and_content_sensitive() {
    // The content hash is a function of the bytes alone: the same payload
    // always hashes the same, and these two payloads hash apart.
    let hello = b"hello world".to_vec();
    let other = b"i am responding".to_vec();
    assert_eq!(MessageId::for_payload(&hello), MessageId::for_payload(&hello));
    assert_ne!(MessageId::for_payload(&hello), MessageId::for_payload(&other));
}

#[test]
fn test_subscribe_idempotent() {
    let mut engine = GossipEngine::new(PeerId::new(7), strict_config());
    assert!(engine.subscribe(&header()));
    // Subscribing to a topic already subscribed adds no membership and is
    // no error.
    assert!(!engine.subscribe(&header()));
    assert!(!engine.subscribe(&header()));
    assert!(engine.subscribe(&b"other".to_vec()));
}

#[test]
fn test_first_event_is_new_listen_addr() {
    let mut net = Network::new(PeerId::new(1), None, 9000);
    let addr = NetAddr::new(127, 0, 0, 1, 9000);
    match net.poll_next(Some(LowEvent::NewListenAddr(addr))) {
        PollOutcome::Event(StreamItem::NewListenAddr(a)) => assert_eq!(a, addr),
        _ => panic!("unexpected event"),
    }
}

#[test]
fn test_publish_with_no_peers_is_no_error() {
    // Instance X starts with no bootstrap and publishes before any peer
    // connects: the call succeeds with zero effective recipients.
    let mut net = Network::new(PeerId::new(1), None, 9000);
    assert!(net.effective_recipients().is_empty());
    let payload = b"hello world".to_vec();
    let id = net.publish(payload.clone()).unwrap();
    assert_eq!(id, MessageId::for_payload(&payload));
    assert!(net.effective_recipients().is_empty());
}

#[test]
fn test_gossip_two_nodes() {
    // Model scenario: Alice starts with no bootstrap, Bob bootstraps off
    // her address; both observe the connection, and each payload published
    // by one surfaces at the other with the right bytes and the right
    // content-derived identifier.
    let alice_peer = PeerId::new(1);
    let bob_peer = PeerId::new(2);
    let mut alice = Network::new(alice_peer, None, 9000);

    let alice_addr = match alice.poll_next(Some(LowEvent::NewListenAddr(NetAddr::new(
        127, 0, 0, 1, 9000,
    )))) {
        PollOutcome::Event(StreamItem::NewListenAddr(a)) => FullAddr::new(a, alice_peer),
        _ => panic!("unexpected event"),
    };

    let mut bob = Network::new(bob_peer, Some(alice_addr), 9001);
    match bob.poll_next(Some(LowEvent::NewListenAddr(NetAddr::new(127, 0, 0, 1, 9001)))) {
        PollOutcome::Event(StreamItem::NewListenAddr(_)) => {}
        _ => panic!("unexpected event"),
    }

    match alice.poll_next(Some(LowEvent::ConnectionEstablished { peer: bob_peer })) {
        PollOutcome::Event(StreamItem::PeerConnected(p)) => assert_eq!(p, bob_peer),
        _ => panic!("unexpected event"),
    }
    match bob.poll_next(Some(LowEvent::ConnectionEstablished { peer: alice_peer })) {
        PollOutcome::Event(StreamItem::PeerConnected(p)) => assert_eq!(p, alice_peer),
        _ => panic!("unexpected event"),
    }

    match alice.poll_next(Some(LowEvent::GossipSubscribed { peer: bob_peer, topic: header() })) {
        PollOutcome::Event(StreamItem::PeerSubscribed(p, t)) => {
            assert_eq!(p, bob_peer);
            assert_eq!(t, header());
        }
        _ => panic!("unexpected event"),
    }

    let msg_a = b"hello world".to_vec();
    let recv_msg_a = msg_a.clone();
    let id_a = alice.publish(msg_a.clone()).unwrap();
    assert_eq!(alice.effective_recipients(), vec![bob_peer]);

    match bob.poll_next(Some(LowEvent::GossipMessage {
        source: alice_peer,
        data: msg_a,
        sig_ok: true,
    })) {
        PollOutcome::Event(StreamItem::Message(m)) => {
            assert_eq!(m.data, recv_msg_a);
            assert_eq!(m.source, alice_peer);
            assert_eq!(m.id, id_a);
            assert_eq!(m.id, MessageId::for_payload(&recv_msg_a));
        }
        _ => panic!("unexpected event"),
    }

    let msg_b = b"i am responding".to_vec();
    let recv_msg_b = msg_b.clone();
    let id_b = bob.publish(msg_b.clone()).unwrap();

    match alice.poll_next(Some(LowEvent::GossipMessage {
        source: bob_peer,
        data: msg_b,
        sig_ok: true,
    })) {
        PollOutcome::Event(StreamItem::Message(m)) => {
            assert_eq!(m.data, recv_msg_b);
            assert_eq!(m.source, bob_peer);
            assert_eq!(m.id, id_b);
            assert_eq!(m.id, MessageId::for_payload(&recv_msg_b));
        }
        _ => panic!("unexpected event"),
    }
}

#[test]
fn test_invalid_signature_never_surfaces() {
    // Under strict validation a message whose signature did not verify is
    // dropped silently: no event, and the engine state is untouched, so the
    // same payload with a verifying signature still surfaces afterwards.
    let mut net = Network::new(PeerId::new(1), None, 9000);
    let sender = PeerId::new(2);
    let payload = b"hello world".to_vec();
    match net.poll_next(Some(LowEvent::GossipMessage {
        source: sender,
        data: payload.clone(),
        sig_ok: false,
    })) {
        PollOutcome::NoEvent => {}
        _ => panic!("unexpected event"),
    }
    match net.poll_next(Some(LowEvent::GossipMessage {
        source: sender,
        data: payload.clone(),
        sig_ok: true,
    })) {
        PollOutcome::Event(StreamItem::Message(m)) => assert_eq!(m.data, payload),
        _ => panic!("unexpected event"),
    }
}

#[test]
fn test_duplicate_suppressed() {
    // A payload whose content identifier was already seen is not re-emitted,
    // whoever sends it: byte-identical payloads from different publishers
    // collide by design.
    let mut net = Network::new(PeerId::new(1), None, 9000);
    let payload = b"hello world".to_vec();
    match net.poll_next(Some(LowEvent::GossipMessage {
        source: PeerId::new(2),
        data: payload.clone(),
        sig_ok: true,
    })) {
        PollOutcome::Event(StreamItem::Message(_)) => {}
        _ => panic!("unexpected event"),
    }
    match net.poll_next(Some(LowEvent::GossipMessage {
        source: PeerId::new(3),
        data: payload.clone(),
        sig_ok: true,
    })) {
        PollOutcome::NoEvent => {}
        _ => panic!("unexpected event"),
    }
}

#[test]
fn test_publish_duplicate_is_error() {
    let mut net = Network::new(PeerId::new(1), None, 9000);
    let payload = b"hello world".to_vec();
    net.publish(payload.clone()).unwrap();
    assert_eq!(net.publish(payload).unwrap_err(), PublishError::Duplicate);
}

#[test]
fn test_terminal_state_is_sticky() {
    // After the source is exhausted once, every subsequent poll reports
    // exhaustion and never resumes producing events.
    let mut net = Network::new(PeerId::new(1), None, 9000);
    assert!(!net.is_terminated());
    match net.poll_next(None) {
        PollOutcome::Exhausted => {}
        _ => panic!("unexpected event"),
    }
    assert!(net.is_terminated());
    match net.poll_next(Some(LowEvent::NewListenAddr(NetAddr::new(127, 0, 0, 1, 9000)))) {
        PollOutcome::Exhausted => {}
        _ => panic!("unexpected event"),
    }
    match net.poll_next(Some(LowEvent::GossipMessage {
        source: PeerId::new(2),
        data: b"hello world".to_vec(),
        sig_ok: true,
    })) {
        PollOutcome::Exhausted => {}
        _ => panic!("unexpected event"),
    }
    assert!(net.is_terminated());
}

#[test]
fn test_connection_allow_lists_peer() {
    // A completed connection surfaces PeerConnected and, as a side effect,
    // allow-lists the peer for topic traffic.
    let mut net = Network::new(PeerId::new(1), None, 9000);
    let peer = PeerId::new(2);
    match net.poll_next(Some(LowEvent::ConnectionEstablished { peer })) {
        PollOutcome::Event(StreamItem::PeerConnected(p)) => assert_eq!(p, peer),
        _ => panic!("unexpected event"),
    }
    assert!(net.effective_recipients().is_empty());
    match net.poll_next(Some(LowEvent::GossipSubscribed { peer, topic: header() })) {
        PollOutcome::Event(StreamItem::PeerSubscribed(_, _)) => {}
        _ => panic!("unexpected event"),
    }
    assert_eq!(net.effective_recipients(), vec![peer]);
}

#[test]
fn test_discovery_updates_allow_list_silently() {
    // Discovery additions and expiries are consumed internally: no domain
    // event surfaces, but the allow-list changes.
    let mut net = Network::new(PeerId::new(1), None, 9000);
    let peer = PeerId::new(2);
    match net.poll_next(Some(LowEvent::PeerDiscovered(peer))) {
        PollOutcome::NoEvent => {}
        _ => panic!("unexpected event"),
    }
    match net.poll_next(Some(LowEvent::GossipSubscribed { peer, topic: header() })) {
        PollOutcome::Event(StreamItem::PeerSubscribed(_, _)) => {}
        _ => panic!("unexpected event"),
    }
    assert_eq!(net.effective_recipients(), vec![peer]);
    match net.poll_next(Some(LowEvent::PeerExpired(peer))) {
        PollOutcome::NoEvent => {}
        _ => panic!("unexpected event"),
    }
    assert!(net.effective_recipients().is_empty());
}

#[test]
fn test_ping_and_other_events_dropped() {
    let mut net = Network::new(PeerId::new(1), None, 9000);
    match net.poll_next(Some(LowEvent::Ignored)) {
        PollOutcome::NoEvent => {}
        _ => panic!("unexpected event"),
    }
    assert!(!net.is_terminated());
}

#[test]
fn test_new_computes_own_dialable_address() {
    let peer = PeerId::new(42);
    let bootstrap = FullAddr::new(NetAddr::new(10, 0, 0, 5, 9000), PeerId::new(1));
    let net = Network::new(peer, Some(bootstrap), 9001);
    assert_eq!(net.multiaddr, FullAddr::new(NetAddr::unspecified(9001), peer));
    assert_eq!(net.bootstrap, Some(bootstrap));
    let lone = Network::new(peer, None, 9002);
    assert_eq!(lone.bootstrap, None);
}

#[test]
fn test_engine_allow_list_operations() {
    let mut engine = GossipEngine::new(PeerId::new(1), strict_config());
    let p = PeerId::new(2);
    engine.add_explicit_peer(p);
    engine.add_explicit_peer(p);
    engine.note_subscription(p, &header());
    assert_eq!(engine.effective_recipients(&header()), vec![p]);
    engine.remove_explicit_peer(p);
    assert!(engine.effective_recipients(&header()).is_empty());
    // Expelling a peer that is not allow-listed changes nothing.
    engine.remove_explicit_peer(PeerId::new(9));
    assert!(engine.effective_recipients(&header()).is_empty());
}

#[test]
fn test_permissive_mode_accepts_unsigned() {
    let mut engine = GossipEngine::new(
        PeerId::new(1),
        GossipConfig { heartbeat_secs: 1, validation: ValidationMode::Permissive },
    );
    let delivered = engine.accept_inbound(PeerId::new(2), b"hello world".to_vec(), false);
    assert!(delivered.is_some());
    // The same bytes under strict mode without a verified signature are dropped.
    let mut strict = GossipEngine::new(PeerId::new(1), strict_config());
    let dropped = strict.accept_inbound(PeerId::new(2), b"hello world".to_vec(), false);
    assert!(dropped.is_none());
}

//! Network facade: one discovery instance and one pub/sub engine behind a
//! single polling loop.
//!
//! The facade owns the engine and its own terminal flag. It is driven by
//! repeated polling: the driver hands it the next low-level transport event
//! (or the fact that the source is exhausted), and the facade translates it
//! into at most one domain event out of a closed set, updating the engine's
//! allow-list and membership as a side effect. Exhaustion of the underlying
//! event source is terminal: once observed, every later poll reports
//! exhaustion and no event is ever produced again.

use vstd::prelude::*;
use crate::addr::FullAddr;
use crate::addr::NetAddr;
use crate::engine::EngineModel;
use crate::engine::GossipConfig;
use crate::engine::GossipEngine;
use crate::engine::Message;
use crate::engine::PublishError;
use crate::engine::ValidationMode;
use crate::engine::accept_model;
use crate::engine::add_peer_model;
use crate::engine::note_sub_model;
use crate::engine::publish_model;
use crate::engine::remove_peer_model;
use crate::msg_id::MessageId;
use crate::msg_id::content_hash;
use crate::peer::PeerId;

verus! {

/// The bytes of the one fixed topic the facade subscribes to: `"header"`.
pub open spec fn header_topic() -> Seq<u8> {
    seq![104u8, 101u8, 97u8, 100u8, 101u8, 114u8]
}

/// The fixed topic as a byte vector.
pub fn header_topic_bytes() -> (r: Vec<u8>)
    ensures
        r@ == header_topic(),
{
    let mut r: Vec<u8> = Vec::new();
    r.push(104);
    r.push(101);
    r.push(97);
    r.push(100);
    r.push(101);
    r.push(114);
    proof {
        assert(r@ =~= header_topic());
    }
    r
}

/// A low-level transport/discovery event, as the driver observed it. The
/// cryptographic and transport collaborators hand the facade plain values:
/// for an inbound gossip message, `sig_ok` reports whether the publisher
/// signature verified.
pub enum LowEvent {
    /// The transport began listening on a concrete local address.
    NewListenAddr(NetAddr),
    /// An inbound gossip message, before validation and deduplication.
    GossipMessage { source: PeerId, data: Vec<u8>, sig_ok: bool },
    /// A connected peer announced a subscription to a topic.
    GossipSubscribed { peer: PeerId, topic: Vec<u8> },
    /// A transport-level connection to a peer completed.
    ConnectionEstablished { peer: PeerId },
    /// Local-segment discovery found a peer.
    PeerDiscovered(PeerId),
    /// Local-segment discovery saw a peer expire.
    PeerExpired(PeerId),
    /// A ping or any other low-level event the taxonomy drops.
    Ignored,
}

/// The mathematical value of a low-level event.
pub ghost enum LowEventModel {
    NewListenAddr(NetAddr),
    GossipMessage { source: PeerId, data: Seq<u8>, sig_ok: bool },
    GossipSubscribed { peer: PeerId, topic: Seq<u8> },
    ConnectionEstablished { peer: PeerId },
    PeerDiscovered(PeerId),
    PeerExpired(PeerId),
    Ignored,
}

impl View for LowEvent {
    type V = LowEventModel;

    open spec fn view(&self) -> LowEventModel {
        match self {
            LowEvent::NewListenAddr(a) => LowEventModel::NewListenAddr(*a),
            LowEvent::GossipMessage { source, data, sig_ok } => LowEventModel::GossipMessage {
                source: *source,
                data: data@,
                sig_ok: *sig_ok,
            },
            LowEvent::GossipSubscribed { peer, topic } => LowEventModel::GossipSubscribed {
                peer: *peer,
                topic: topic@,
            },
            LowEvent::ConnectionEstablished { peer } => LowEventModel::ConnectionEstablished {
                peer: *peer,
            },
            LowEvent::PeerDiscovered(p) => LowEventModel::PeerDiscovered(*p),
            LowEvent::PeerExpired(p) => LowEventModel::PeerExpired(*p),
            LowEvent::Ignored => LowEventModel::Ignored,
        }
    }
}

/// The value of the next low-level item: an event, or exhaustion of the
/// underlying source.
pub open spec fn low_item_view(e: Option<LowEvent>) -> Option<LowEventModel> {
    match e {
        Option::None => Option::None,
        Option::Some(ev) => Option::Some(ev@),
    }
}

/// A domain event surfaced to the caller — the closed taxonomy.
pub enum StreamItem {
    /// The transport began listening on a concrete local address.
    NewListenAddr(NetAddr),
    /// A post-validation, deduplicated pub/sub delivery.
    Message(Message),
    /// A transport-level connection to the peer completed; the peer is now
    /// allow-listed in the engine as a side effect.
    PeerConnected(PeerId),
    /// A connected peer announced subscription to the topic.
    PeerSubscribed(PeerId, Vec<u8>),
}

/// The mathematical value of a surfaced domain event.
pub ghost enum StreamItemModel {
    NewListenAddr(NetAddr),
    Message { source: PeerId, data: Seq<u8>, id: u64 },
    PeerConnected(PeerId),
    PeerSubscribed(PeerId, Seq<u8>),
}

impl View for StreamItem {
    type V = StreamItemModel;

    open spec fn view(&self) -> StreamItemModel {
        match self {
            StreamItem::NewListenAddr(a) => StreamItemModel::NewListenAddr(*a),
            StreamItem::Message(m) => StreamItemModel::Message {
                source: m.source,
                data: m.data@,
                id: m.id.id,
            },
            StreamItem::PeerConnected(p) => StreamItemModel::PeerConnected(*p),
            StreamItem::PeerSubscribed(p, t) => StreamItemModel::PeerSubscribed(*p, t@),
        }
    }
}

/// What one poll step produced.
pub enum PollOutcome {
    /// A translatable low-level event surfaced as a domain event.
    Event(StreamItem),
    /// The low-level event was consumed without surfacing anything; the
    /// caller should poll again later.
    NoEvent,
    /// The underlying event source is exhausted; the facade is terminated.
    Exhausted,
}

/// The mathematical value of a poll outcome.
pub ghost enum PollOutcomeModel {
    Event(StreamItemModel),
    NoEvent,
    Exhausted,
}

impl View for PollOutcome {
    type V = PollOutcomeModel;

    open spec fn view(&self) -> PollOutcomeModel {
        match self {
            PollOutcome::Event(it) => PollOutcomeModel::Event(it@),
            PollOutcome::NoEvent => PollOutcomeModel::NoEvent,
            PollOutcome::Exhausted => PollOutcomeModel::Exhausted,
        }
    }
}

/// The mathematical state of the facade.
#[verifier::ext_equal]
pub ghost struct NetworkModel {
    /// The facade's own externally-dialable address: listen address plus its
    /// own peer id.
    pub multiaddr: FullAddr,
    /// The bootstrap address handed in at construction, if any: the dial the
    /// driver performs when it starts the instance.
    pub bootstrap: Option<FullAddr>,
    /// The pub/sub engine state.
    pub engine: EngineModel,
    /// Whether the underlying event source has been exhausted.
    pub terminated: bool,
}

/// One poll step: how the facade translates the next low-level item into a
/// domain event and a new state.
///
/// A terminated facade reports exhaustion and changes nothing, whatever the
/// driver hands it. Otherwise: exhaustion of the source terminates the
/// facade, one-way; a new listen address and a remote subscription surface
/// directly; a completed connection allow-lists the peer and surfaces; an
/// inbound message passes the engine boundary (validation, then
/// deduplication) and surfaces only if accepted; discovery additions and
/// expiries update the allow-list without surfacing; everything else is
/// dropped.
pub open spec fn step_model(m: NetworkModel, event: Option<LowEventModel>) -> (
    NetworkModel,
    PollOutcomeModel,
) {
    if m.terminated {
        (m, PollOutcomeModel::Exhausted)
    } else {
        match event {
            Option::None => (
                NetworkModel { terminated: true, ..m },
                PollOutcomeModel::Exhausted,
            ),
            Option::Some(LowEventModel::NewListenAddr(a)) => (
                m,
                PollOutcomeModel::Event(StreamItemModel::NewListenAddr(a)),
            ),
            Option::Some(LowEventModel::GossipMessage { source, data, sig_ok }) => {
                let e2 = accept_model(m.engine, data, sig_ok).0;
                let accepted = accept_model(m.engine, data, sig_ok).1;
                let m2 = NetworkModel { engine: e2, ..m };
                if accepted {
                    (
                        m2,
                        PollOutcomeModel::Event(
                            StreamItemModel::Message { source, data, id: content_hash(data) },
                        ),
                    )
                } else {
                    (m2, PollOutcomeModel::NoEvent)
                }
            },
            Option::Some(LowEventModel::GossipSubscribed { peer, topic }) => (
                NetworkModel { engine: note_sub_model(m.engine, peer, topic), ..m },
                PollOutcomeModel::Event(StreamItemModel::PeerSubscribed(peer, topic)),
            ),
            Option::Some(LowEventModel::ConnectionEstablished { peer }) => (
                NetworkModel { engine: add_peer_model(m.engine, peer), ..m },
                PollOutcomeModel::Event(StreamItemModel::PeerConnected(peer)),
            ),
            Option::Some(LowEventModel::PeerDiscovered(p)) => (
                NetworkModel { engine: add_peer_model(m.engine, p), ..m },
                PollOutcomeModel::NoEvent,
            ),
            Option::Some(LowEventModel::PeerExpired(p)) => (
                NetworkModel { engine: remove_peer_model(m.engine, p), ..m },
                PollOutcomeModel::NoEvent,
            ),
            Option::Some(LowEventModel::Ignored) => (m, PollOutcomeModel::NoEvent),
        }
    }
}

/// The network facade.
pub struct Network {
    /// The facade's own externally-dialable address.
    pub multiaddr: FullAddr,
    /// The bootstrap dial target handed in at construction, if any.
    pub bootstrap: Option<FullAddr>,
    /// The pub/sub engine.
    pub engine: GossipEngine,
    /// Whether the underlying event source has been exhausted.
    pub terminated: bool,
}

impl View for Network {
    type V = NetworkModel;

    open spec fn view(&self) -> NetworkModel {
        NetworkModel {
            multiaddr: self.multiaddr,
            bootstrap: self.bootstrap,
            engine: self.engine@,
            terminated: self.terminated,
        }
    }
}

impl Network {
    /// The facade's structural invariant.
    pub open spec fn wf(self) -> bool {
        self.engine.wf()
    }

    /// A fresh facade under the given identity: its engine is configured
    /// with a one-second heartbeat, strict signature validation and
    /// content-hash message identity, and subscribed to the fixed topic;
    /// its own dialable address is the wildcard listen address for `port`
    /// with its own peer id appended; the bootstrap address, if any, is
    /// recorded for the driver to dial; it is not terminated.
    pub fn new(local_peer: PeerId, bootstrap: Option<FullAddr>, port: u16) -> (r: Network)
        ensures
            r.wf(),
            r@ == (NetworkModel {
                multiaddr: FullAddr {
                    addr: NetAddr { host0: 0u8, host1: 0u8, host2: 0u8, host3: 0u8, port },
                    peer: local_peer,
                },
                bootstrap,
                engine: EngineModel {
                    local_peer,
                    validation: ValidationMode::Strict,
                    heartbeat_secs: 1u64,
                    topics: Set::empty().insert(header_topic()),
                    peers: Set::empty(),
                    remote_subs: Set::empty(),
                    seen: Set::empty(),
                },
                terminated: false,
            }),
    {
        let config = GossipConfig::default();
        let mut engine = GossipEngine::new(local_peer, config);
        let topic = header_topic_bytes();
        engine.subscribe(&topic);
        let r = Network {
            multiaddr: FullAddr::new(NetAddr::unspecified(port), local_peer),
            bootstrap,
            engine,
            terminated: false,
        };
        proof {
            assert(r@.engine =~= (EngineModel {
                local_peer,
                validation: ValidationMode::Strict,
                heartbeat_secs: 1u64,
                topics: Set::empty().insert(header_topic()),
                peers: Set::empty(),
                remote_subs: Set::empty(),
                seen: Set::empty(),
            }));
            assert(r@ =~= (NetworkModel {
                multiaddr: FullAddr {
                    addr: NetAddr { host0: 0u8, host1: 0u8, host2: 0u8, host3: 0u8, port },
                    peer: local_peer,
                },
                bootstrap,
                engine: r@.engine,
                terminated: false,
            }));
        }
        r
    }

    /// Publish a payload on the fixed topic. The returned identifier is the
    /// content hash of the payload bytes — not a function of the sender —
    /// and a payload already seen within the dedup window is refused as a
    /// duplicate. Absence of recipients is not an error.
    pub fn publish(&mut self, message: Vec<u8>) -> (r: Result<MessageId, PublishError>)
        requires
            old(self).wf(),
        ensures
            final(self).wf(),
            final(self)@ == (NetworkModel {
                engine: publish_model(old(self)@.engine, message@).0,
                ..old(self)@
            }),
            r == publish_model(old(self)@.engine, message@).1,
            r matches Ok(id) ==> id.id == content_hash(message@),
    {
        let topic = header_topic_bytes();
        let r = self.engine.publish(&topic, &message);
        proof {
            assert(self@ =~= (NetworkModel {
                engine: publish_model(old(self)@.engine, message@).0,
                ..old(self)@
            }));
        }
        r
    }

    /// The peers a publish on the fixed topic currently reaches.
    pub fn effective_recipients(&self) -> (r: Vec<PeerId>)
        requires
            self.wf(),
        ensures
            r@.to_set() == crate::engine::recipients_model(self@.engine, header_topic()),
            r@.no_duplicates(),
    {
        let topic = header_topic_bytes();
        self.engine.effective_recipients(&topic)
    }

    /// One poll step: translate the next low-level item (`None` meaning the
    /// source is exhausted) into at most one domain event, as `step_model`
    /// says.
    pub fn poll_next(&mut self, event: Option<LowEvent>) -> (r: PollOutcome)
        requires
            old(self).wf(),
        ensures
            final(self).wf(),
            final(self)@ == step_model(old(self)@, low_item_view(event)).0,
            r@ == step_model(old(self)@, low_item_view(event)).1,
    {
        if self.terminated {
            return PollOutcome::Exhausted;
        }
        match event {
            Option::None => {
                self.terminated = true;
                proof {
                    assert(self@ =~= step_model(old(self)@, low_item_view(event)).0);
                }
                PollOutcome::Exhausted
            },
            Option::Some(LowEvent::NewListenAddr(a)) => PollOutcome::Event(
                StreamItem::NewListenAddr(a),
            ),
            Option::Some(LowEvent::GossipMessage { source, data, sig_ok }) => {
                let accepted = self.engine.accept_inbound(source, data, sig_ok);
                proof {
                    assert(self@ =~= step_model(old(self)@, low_item_view(event)).0);
                }
                match accepted {
                    Option::Some(msg) => PollOutcome::Event(StreamItem::Message(msg)),
                    Option::None => PollOutcome::NoEvent,
                }
            },
            Option::Some(LowEvent::GossipSubscribed { peer, topic }) => {
                self.engine.note_subscription(peer, &topic);
                proof {
                    assert(self@ =~= step_model(old(self)@, low_item_view(event)).0);
                }
                PollOutcome::Event(StreamItem::PeerSubscribed(peer, topic))
            },
            Option::Some(LowEvent::ConnectionEstablished { peer }) => {
                self.engine.add_explicit_peer(peer);
                proof {
                    assert(self@ =~= step_model(old(self)@, low_item_view(event)).0);
                }
                PollOutcome::Event(StreamItem::PeerConnected(peer))
            },
            Option::Some(LowEvent::PeerDiscovered(peer)) => {
                self.engine.add_explicit_peer(peer);
                proof {
                    assert(self@ =~= step_model(old(self)@, low_item_view(event)).0);
                }
                PollOutcome::NoEvent
            },
            Option::Some(LowEvent::PeerExpired(peer)) => {
                self.engine.remove_explicit_peer(peer);
                proof {
                    assert(self@ =~= step_model(old(self)@, low_item_view(event)).0);
                }
                PollOutcome::NoEvent
            },
            Option::Some(LowEvent::Ignored) => PollOutcome::NoEvent,
        }
    }

    /// Whether the underlying event source has been exhausted. Once true it
    /// stays true, and no poll will ever produce an event again.
    pub fn is_terminated(&self) -> (r: bool)
        ensures
            r == self@.terminated,
    {
        self.terminated
    }
}

} // verus!

//! Topic pub/sub engine: membership, allow-list, duplicate suppression and
//! signature-validation policy.
//!
//! The engine keeps the local topic subscriptions, the explicit-peer
//! allow-list gating which connected peers exchange topic traffic, the
//! announced remote subscriptions, and the set of already-seen message
//! identifiers used for duplicate suppression. Messages are identified by a
//! content hash of the payload alone. In strict validation mode an inbound
//! message without a verifiable publisher signature is dropped silently at
//! the engine boundary.

use vstd::prelude::*;
use crate::msg_id::MessageId;
use crate::msg_id::content_hash;
use crate::peer::PeerId;

verus! {

/// Policy for inbound message authenticity.
#[derive(PartialEq, Eq, Structural, Clone, Copy, Debug)]
pub enum ValidationMode {
    /// Every inbound message must carry a verifiable signature matching its
    /// claimed publisher; any that does not is dropped at the engine boundary.
    Strict,
    /// Inbound messages are accepted without a signature check.
    Permissive,
}

/// Configuration bundle for the engine.
#[derive(PartialEq, Eq, Structural, Clone, Copy, Debug)]
pub struct GossipConfig {
    /// How often membership/gossip maintenance runs, in seconds.
    pub heartbeat_secs: u64,
    /// Inbound authenticity policy.
    pub validation: ValidationMode,
}

impl Default for GossipConfig {
    /// The configuration the facade uses: maintenance every second and
    /// strict signature validation.
    fn default() -> (r: GossipConfig)
        ensures
            r == (GossipConfig { heartbeat_secs: 1u64, validation: ValidationMode::Strict }),
    {
        GossipConfig { heartbeat_secs: 1, validation: ValidationMode::Strict }
    }
}

/// A post-validation, deduplicated pub/sub delivery.
pub struct Message {
    /// The peer the message propagated from.
    pub source: PeerId,
    /// The payload bytes.
    pub data: Vec<u8>,
    /// The content-derived identifier of the payload.
    pub id: MessageId,
}

/// Why a publish was refused.
#[derive(PartialEq, Eq, Structural, Clone, Copy, Debug)]
pub enum PublishError {
    /// A payload with the same content identifier was already seen within
    /// the dedup window; it is not re-flooded.
    Duplicate,
}

/// The mathematical state of the engine: its subscriptions, allow-list,
/// announced remote subscriptions and seen message identifiers.
#[verifier::ext_equal]
pub ghost struct EngineModel {
    pub local_peer: PeerId,
    pub validation: ValidationMode,
    pub heartbeat_secs: u64,
    pub topics: Set<Seq<u8>>,
    pub peers: Set<PeerId>,
    pub remote_subs: Set<(PeerId, Seq<u8>)>,
    pub seen: Set<u64>,
}

/// Some element of `s` views to the topic `t`.
pub open spec fn has_topic(s: Seq<Vec<u8>>, t: Seq<u8>) -> bool {
    exists|i: int| 0 <= i < s.len() && s[i]@ == t
}

/// Some element of `s` records that `p` announced a subscription to `t`.
pub open spec fn has_sub(s: Seq<(PeerId, Vec<u8>)>, p: PeerId, t: Seq<u8>) -> bool {
    exists|i: int| 0 <= i < s.len() && s[i].0 == p && s[i].1@ == t
}

/// Idempotent topic join: a topic already subscribed is joined again with
/// no membership change, and reports that nothing was added.
pub open spec fn subscribe_model(m: EngineModel, t: Seq<u8>) -> (EngineModel, bool) {
    if m.topics.contains(t) {
        (m, false)
    } else {
        (EngineModel { topics: m.topics.insert(t), ..m }, true)
    }
}

/// Admitting a peer to the explicit allow-list.
pub open spec fn add_peer_model(m: EngineModel, p: PeerId) -> EngineModel {
    EngineModel { peers: m.peers.insert(p), ..m }
}

/// Expelling a peer from the explicit allow-list.
pub open spec fn remove_peer_model(m: EngineModel, p: PeerId) -> EngineModel {
    EngineModel { peers: m.peers.remove(p), ..m }
}

/// Recording that a remote peer announced a subscription to a topic.
pub open spec fn note_sub_model(m: EngineModel, p: PeerId, t: Seq<u8>) -> EngineModel {
    EngineModel { remote_subs: m.remote_subs.insert((p, t)), ..m }
}

/// Whether the engine's validation policy drops a message whose signature
/// check came out as `sig_ok`.
pub open spec fn drops_invalid(m: EngineModel, sig_ok: bool) -> bool {
    m.validation == ValidationMode::Strict && !sig_ok
}

/// The engine boundary for an inbound message: drop it when strict
/// validation rejects its signature, drop it as a duplicate when its content
/// identifier was already seen, otherwise accept it and remember the
/// identifier. The second component says whether the message was accepted.
pub open spec fn accept_model(m: EngineModel, data: Seq<u8>, sig_ok: bool) -> (EngineModel, bool) {
    if drops_invalid(m, sig_ok) {
        (m, false)
    } else if m.seen.contains(content_hash(data)) {
        (m, false)
    } else {
        (EngineModel { seen: m.seen.insert(content_hash(data)), ..m }, true)
    }
}

/// Publishing a payload: its content identifier is computed from the payload
/// bytes alone; a payload whose identifier was already seen is refused as a
/// duplicate, otherwise the identifier is recorded and returned.
pub open spec fn publish_model(m: EngineModel, data: Seq<u8>) -> (EngineModel, Result<
    MessageId,
    PublishError,
>) {
    let id = content_hash(data);
    if m.seen.contains(id) {
        (m, Err(PublishError::Duplicate))
    } else {
        (EngineModel { seen: m.seen.insert(id), ..m }, Ok(MessageId { id }))
    }
}

/// The peers a flood on topic `t` reaches: allow-listed peers that announced
/// a subscription to `t`.
pub open spec fn recipients_model(m: EngineModel, t: Seq<u8>) -> Set<PeerId> {
    m.peers.filter(|p: PeerId| m.remote_subs.contains((p, t)))
}

/// The topic pub/sub engine.
pub struct GossipEngine {
    /// The authenticated identity messages are published under.
    pub local_peer: PeerId,
    /// Inbound authenticity policy.
    pub validation: ValidationMode,
    /// How often membership/gossip maintenance runs, in seconds.
    pub heartbeat_secs: u64,
    /// Topics this engine is subscribed to.
    pub topics: Vec<Vec<u8>>,
    /// The explicit-peer allow-list.
    pub explicit_peers: Vec<PeerId>,
    /// Remote subscription announcements seen so far.
    pub remote_subs: Vec<(PeerId, Vec<u8>)>,
    /// Content identifiers already seen, for duplicate suppression.
    pub seen: Vec<u64>,
}

impl View for GossipEngine {
    type V = EngineModel;

    open spec fn view(&self) -> EngineModel {
        EngineModel {
            local_peer: self.local_peer,
            validation: self.validation,
            heartbeat_secs: self.heartbeat_secs,
            topics: Set::new(|t: Seq<u8>| has_topic(self.topics@, t)),
            peers: self.explicit_peers@.to_set(),
            remote_subs: Set::new(|pt: (PeerId, Seq<u8>)| has_sub(self.remote_subs@, pt.0, pt.1)),
            seen: self.seen@.to_set(),
        }
    }
}

/// A byte-for-byte copy of a payload or topic.
fn clone_bytes(v: &Vec<u8>) -> (r: Vec<u8>)
    ensures
        r@ == v@,
{
    let mut r: Vec<u8> = Vec::new();
    let mut i: usize = 0;
    while i < v.len()
        invariant
            i <= v@.len(),
            r@ == v@.subrange(0, i as int),
        decreases v@.len() - i,
    {
        r.push(v[i]);
        i += 1;
        proof {
            assert(r@ =~= v@.subrange(0, i as int));
        }
    }
    proof {
        assert(r@ =~= v@);
    }
    r
}

/// Whether two byte vectors hold the same bytes.
fn bytes_eq(a: &Vec<u8>, b: &Vec<u8>) -> (r: bool)
    ensures
        r == (a@ == b@),
{
    if a.len() != b.len() {
        return false;
    }
    let mut i: usize = 0;
    while i < a.len()
        invariant
            a@.len() == b@.len(),
            i <= a@.len(),
            forall|k: int| 0 <= k < i ==> a@[k] == b@[k],
        decreases a@.len() - i,
    {
        if a[i] != b[i] {
            return false;
        }
        i += 1;
    }
    proof {
        assert(a@ =~= b@);
    }
    true
}

/// Whether `v` holds a topic with the bytes of `t`.
fn contains_topic(v: &Vec<Vec<u8>>, t: &Vec<u8>) -> (r: bool)
    ensures
        r == has_topic(v@, t@),
{
    let mut i: usize = 0;
    while i < v.len()
        invariant
            i <= v@.len(),
            forall|k: int| 0 <= k < i ==> v@[k]@ != t@,
        decreases v@.len() - i,
    {
        if bytes_eq(&v[i], t) {
            return true;
        }
        i += 1;
    }
    proof {
        if has_topic(v@, t@) {
            let k = choose|k: int| 0 <= k < v@.len() && v@[k]@ == t@;
            assert(v@[k]@ == t@);
        }
    }
    false
}

/// Whether `v` holds the peer `p`.
fn contains_peer(v: &Vec<PeerId>, p: PeerId) -> (r: bool)
    ensures
        r == v@.contains(p),
{
    let mut i: usize = 0;
    while i < v.len()
        invariant
            i <= v@.len(),
            forall|k: int| 0 <= k < i ==> v@[k] != p,
        decreases v@.len() - i,
    {
        if v[i] == p {
            return true;
        }
        i += 1;
    }
    proof {
        if v@.contains(p) {
            let k = choose|k: int| 0 <= k < v@.len() && v@[k] == p;
            assert(v@[k] == p);
        }
    }
    false
}

/// Whether `v` holds the content identifier `x`.
fn contains_id(v: &Vec<u64>, x: u64) -> (r: bool)
    ensures
        r == v@.contains(x),
{
    let mut i: usize = 0;
    while i < v.len()
        invariant
            i <= v@.len(),
            forall|k: int| 0 <= k < i ==> v@[k] != x,
        decreases v@.len() - i,
    {
        if v[i] == x {
            return true;
        }
        i += 1;
    }
    proof {
        if v@.contains(x) {
            let k = choose|k: int| 0 <= k < v@.len() && v@[k] == x;
            assert(v@[k] == x);
        }
    }
    false
}

/// Whether `v` records that `p` announced a subscription to `t`.
fn contains_sub(v: &Vec<(PeerId, Vec<u8>)>, p: PeerId, t: &Vec<u8>) -> (r: bool)
    ensures
        r == has_sub(v@, p, t@),
{
    let mut i: usize = 0;
    while i < v.len()
        invariant
            i <= v@.len(),
            forall|k: int| 0 <= k < i ==> !(v@[k].0 == p && v@[k].1@ == t@),
        decreases v@.len() - i,
    {
        let entry = &v[i];
        if entry.0 == p && bytes_eq(&entry.1, t) {
            return true;
        }
        i += 1;
    }
    proof {
        if has_sub(v@, p, t@) {
            let k = choose|k: int| 0 <= k < v@.len() && v@[k].0 == p && v@[k].1@ == t@;
            assert(v@[k].0 == p && v@[k].1@ == t@);
        }
    }
    false
}

impl GossipEngine {
    /// The engine's structural invariant: the allow-list holds each peer at
    /// most once, so expelling a peer removes it entirely.
    pub open spec fn wf(self) -> bool {
        self.explicit_peers@.no_duplicates()
    }

    /// A fresh engine under the given identity and configuration: subscribed
    /// to nothing, with an empty allow-list and nothing yet seen.
    pub fn new(local_peer: PeerId, config: GossipConfig) -> (r: GossipEngine)
        ensures
            r.wf(),
            r@ == (EngineModel {
                local_peer,
                validation: config.validation,
                heartbeat_secs: config.heartbeat_secs,
                topics: Set::empty(),
                peers: Set::empty(),
                remote_subs: Set::empty(),
                seen: Set::empty(),
            }),
    {
        let r = GossipEngine {
            local_peer,
            validation: config.validation,
            heartbeat_secs: config.heartbeat_secs,
            topics: Vec::new(),
            explicit_peers: Vec::new(),
            remote_subs: Vec::new(),
            seen: Vec::new(),
        };
        proof {
            assert(r@.topics =~= Set::<Seq<u8>>::empty());
            assert(r@.peers =~= Set::<PeerId>::empty());
            assert(r@.remote_subs =~= Set::<(PeerId, Seq<u8>)>::empty());
            assert(r@.seen =~= Set::<u64>::empty());
        }
        r
    }

    /// Idempotent topic join. Reports whether the topic was newly added;
    /// joining a topic already subscribed changes nothing and is no error.
    pub fn subscribe(&mut self, topic: &Vec<u8>) -> (added: bool)
        requires
            old(self).wf(),
        ensures
            final(self).wf(),
            final(self)@ == subscribe_model(old(self)@, topic@).0,
            added == subscribe_model(old(self)@, topic@).1,
    {
        if contains_topic(&self.topics, topic) {
            return false;
        }
        let tc = clone_bytes(topic);
        self.topics.push(tc);
        proof {
            let s_old = old(self).topics@;
            let s_new = self.topics@;
            assert forall|x: Seq<u8>| has_topic(s_new, x) implies old(self)@.topics.insert(
                topic@,
            ).contains(x) by {
                let i = choose|i: int| 0 <= i < s_new.len() && s_new[i]@ == x;
                if i < s_old.len() {
                    assert(s_old[i]@ == x);
                }
            };
            assert forall|x: Seq<u8>| old(self)@.topics.insert(topic@).contains(x) implies
                has_topic(s_new, x) by {
                if x == topic@ {
                    assert(s_new[s_old.len() as int]@ == x);
                } else {
                    let i = choose|i: int| 0 <= i < s_old.len() && s_old[i]@ == x;
                    assert(s_new[i]@ == x);
                }
            };
            assert(self@.topics =~= old(self)@.topics.insert(topic@));
            assert(self@ =~= subscribe_model(old(self)@, topic@).0);
        }
        true
    }

    /// Admit `peer` to the explicit allow-list; admitting a peer already
    /// allow-listed changes nothing.
    pub fn add_explicit_peer(&mut self, peer: PeerId)
        requires
            old(self).wf(),
        ensures
            final(self).wf(),
            final(self)@ == add_peer_model(old(self)@, peer),
    {
        if contains_peer(&self.explicit_peers, peer) {
            proof {
                assert(old(self)@.peers.contains(peer));
                assert(self@.peers =~= old(self)@.peers.insert(peer));
                assert(self@ =~= add_peer_model(old(self)@, peer));
            }
            return;
        }
        self.explicit_peers.push(peer);
        proof {
            broadcast use vstd::prelude::Seq::lemma_push_to_set_commute;

            let s_old = old(self).explicit_peers@;
            assert forall|a: int, b: int|
                0 <= a < self.explicit_peers@.len() && 0 <= b < self.explicit_peers@.len() && a != b
                implies self.explicit_peers@[a] != self.explicit_peers@[b] by {
                if self.explicit_peers@[a] == peer && a < s_old.len() {
                    assert(s_old[a] == peer);
                }
                if self.explicit_peers@[b] == peer && b < s_old.len() {
                    assert(s_old[b] == peer);
                }
            };
            assert(self@ =~= add_peer_model(old(self)@, peer));
        }
    }

    /// Expel `peer` from the explicit allow-list; expelling a peer not
    /// allow-listed changes nothing.
    pub fn remove_explicit_peer(&mut self, peer: PeerId)
        requires
            old(self).wf(),
        ensures
            final(self).wf(),
            final(self)@ == remove_peer_model(old(self)@, peer),
    {
        let n = self.explicit_peers.len();
        let mut i: usize = 0;
        while i < n
            invariant
                i <= n,
                n == self.explicit_peers@.len(),
                *self == *old(self),
                old(self).wf(),
                forall|k: int| 0 <= k < i ==> self.explicit_peers@[k] != peer,
            decreases n - i,
        {
            if self.explicit_peers[i] == peer {
                self.explicit_peers.remove(i);
                proof {
                    let s = old(self).explicit_peers@;
                    let ii = i as int;
                    s.remove_ensures(ii);
                    assert(self.explicit_peers@ == s.remove(ii));
                    assert(s[ii] == peer);
                    assert forall|x: PeerId| s.remove(ii).contains(x) implies (s.to_set().remove(
                        peer,
                    ).contains(x)) by {
                        let j = choose|j: int|
                            0 <= j < s.remove(ii).len() && s.remove(ii)[j] == x;
                        let pj: int = if j < ii {
                            j
                        } else {
                            j + 1
                        };
                        assert(s.remove(ii)[j] == s[pj]);
                        assert(s[pj] == x);
                        assert(pj != ii);
                        if x == peer {
                            assert(s[pj] == s[ii]);
                            assert(false);
                        }
                    };
                    assert forall|x: PeerId| s.to_set().remove(peer).contains(x) implies
                        s.remove(ii).contains(x) by {
                        let j = choose|j: int| 0 <= j < s.len() && s[j] == x;
                        if j < ii {
                            assert(s.remove(ii)[j] == x);
                        } else {
                            assert(j != ii);
                            assert(s.remove(ii)[j - 1] == x);
                        }
                    };
                    assert(self@.peers =~= old(self)@.peers.remove(peer));
                    assert forall|a: int, b: int|
                        0 <= a < s.remove(ii).len() && 0 <= b < s.remove(ii).len() && a != b
                        implies s.remove(ii)[a] != s.remove(ii)[b] by {
                        let pa: int = if a < ii {
                            a
                        } else {
                            a + 1
                        };
                        let pb: int = if b < ii {
                            b
                        } else {
                            b + 1
                        };
                        assert(s.remove(ii)[a] == s[pa]);
                        assert(s.remove(ii)[b] == s[pb]);
                        assert(pa != pb);
                    };
                    assert(self.explicit_peers@.no_duplicates());
                    assert(self@ =~= remove_peer_model(old(self)@, peer));
                }
                return;
            }
            i += 1;
        }
        proof {
            if old(self)@.peers.contains(peer) {
                let k = choose|k: int|
                    0 <= k < self.explicit_peers@.len() && self.explicit_peers@[k] == peer;
                assert(self.explicit_peers@[k] == peer);
            }
            assert(self@.peers =~= old(self)@.peers.remove(peer));
            assert(self@ =~= remove_peer_model(old(self)@, peer));
        }
    }

    /// Record that remote `peer` announced a subscription to `topic`.
    pub fn note_subscription(&mut self, peer: PeerId, topic: &Vec<u8>)
        requires
            old(self).wf(),
        ensures
            final(self).wf(),
            final(self)@ == note_sub_model(old(self)@, peer, topic@),
    {
        if contains_sub(&self.remote_subs, peer, topic) {
            proof {
                assert(old(self)@.remote_subs.contains((peer, topic@)));
                assert(self@.remote_subs =~= old(self)@.remote_subs.insert((peer, topic@)));
                assert(self@ =~= note_sub_model(old(self)@, peer, topic@));
            }
            return;
        }
        let tc = clone_bytes(topic);
        self.remote_subs.push((peer, tc));
        proof {
            let s_old = old(self).remote_subs@;
            let s_new = self.remote_subs@;
            assert forall|pt: (PeerId, Seq<u8>)| has_sub(s_new, pt.0, pt.1) implies old(
                self,
            )@.remote_subs.insert((peer, topic@)).contains(pt) by {
                let i = choose|i: int| 0 <= i < s_new.len() && s_new[i].0 == pt.0 && s_new[i].1@
                    == pt.1;
                if i < s_old.len() {
                    assert(s_old[i].0 == pt.0 && s_old[i].1@ == pt.1);
                }
            };
            assert forall|pt: (PeerId, Seq<u8>)|
                old(self)@.remote_subs.insert((peer, topic@)).contains(pt) implies has_sub(
                s_new,
                pt.0,
                pt.1,
            ) by {
                if pt == (peer, topic@) {
                    assert(s_new[s_old.len() as int].0 == pt.0);
                    assert(s_new[s_old.len() as int].1@ == pt.1);
                } else {
                    let i = choose|i: int| 0 <= i < s_old.len() && s_old[i].0 == pt.0 && s_old[i].1@
                        == pt.1;
                    assert(s_new[i].0 == pt.0 && s_new[i].1@ == pt.1);
                }
            };
            assert(self@.remote_subs =~= old(self)@.remote_subs.insert((peer, topic@)));
            assert(self@ =~= note_sub_model(old(self)@, peer, topic@));
        }
    }

    /// The engine boundary for an inbound message from `source`. `sig_ok`
    /// reports whether the cryptographic layer verified the publisher
    /// signature. The message surfaces if and only if the validation policy
    /// admits it and its content identifier was not already seen.
    pub fn accept_inbound(&mut self, source: PeerId, data: Vec<u8>, sig_ok: bool) -> (r: Option<
        Message,
    >)
        requires
            old(self).wf(),
        ensures
            final(self).wf(),
            final(self)@ == accept_model(old(self)@, data@, sig_ok).0,
            (r is Some) == accept_model(old(self)@, data@, sig_ok).1,
            r matches Some(msg) ==> msg.source == source && msg.data@ == data@ && msg.id.id
                == content_hash(data@),
    {
        if self.validation == ValidationMode::Strict && !sig_ok {
            return None;
        }
        let id = MessageId::for_payload(&data);
        if contains_id(&self.seen, id.id) {
            return None;
        }
        self.seen.push(id.id);
        proof {
            broadcast use vstd::prelude::Seq::lemma_push_to_set_commute;

            assert(self@ =~= accept_model(old(self)@, data@, sig_ok).0);
        }
        Some(Message { source, data, id })
    }

    /// Publish a payload on a topic: sign it under the local identity,
    /// compute its content-derived identifier, and flood it to the
    /// allow-listed peers subscribed to the topic. A payload whose
    /// identifier was already seen within the dedup window is refused as a
    /// duplicate and not re-flooded. Absence of recipients is not an error.
    pub fn publish(&mut self, topic: &Vec<u8>, data: &Vec<u8>) -> (r: Result<
        MessageId,
        PublishError,
    >)
        requires
            old(self).wf(),
        ensures
            final(self).wf(),
            final(self)@ == publish_model(old(self)@, data@).0,
            r == publish_model(old(self)@, data@).1,
    {
        let id = MessageId::for_payload(data);
        if contains_id(&self.seen, id.id) {
            return Err(PublishError::Duplicate);
        }
        self.seen.push(id.id);
        proof {
            broadcast use vstd::prelude::Seq::lemma_push_to_set_commute;

            assert(self@ =~= publish_model(old(self)@, data@).0);
        }
        Ok(id)
    }

    /// The peers a flood on `topic` currently reaches: allow-listed peers
    /// that announced a subscription to it.
    pub fn effective_recipients(&self, topic: &Vec<u8>) -> (r: Vec<PeerId>)
        requires
            self.wf(),
        ensures
            r@.to_set() == recipients_model(self@, topic@),
            r@.no_duplicates(),
    {
        let mut r: Vec<PeerId> = Vec::new();
        let mut i: usize = 0;
        while i < self.explicit_peers.len()
            invariant
                self.wf(),
                i <= self.explicit_peers@.len(),
                r@.no_duplicates(),
                forall|x: PeerId| #[trigger] r@.contains(x) <==> exists|k: int|
                    0 <= k < i && self.explicit_peers@[k] == x && has_sub(self.remote_subs@, x,
                    topic@),
            decreases self.explicit_peers@.len() - i,
        {
            let p = self.explicit_peers[i];
            let ghost i_snap = i as int;
            if contains_sub(&self.remote_subs, p, topic) {
                proof {
                    if r@.contains(p) {
                        let k = choose|k: int|
                            0 <= k < i && self.explicit_peers@[k] == p && has_sub(
                                self.remote_subs@, p, topic@);
                        assert(self.explicit_peers@[k] == self.explicit_peers@[i_snap]);
                        assert(false);
                    }
                }
                let ghost r_snap = r@;
                r.push(p);
                proof {
                    broadcast use vstd::seq_lib::lemma_seq_contains_after_push;

                    assert forall|a: int, b: int|
                        0 <= a < r@.len() && 0 <= b < r@.len() && a != b implies r@[a] != r@[b] by {
                        if a < r_snap.len() && b < r_snap.len() {
                            assert(r@[a] == r_snap[a] && r@[b] == r_snap[b]);
                        } else if a < r_snap.len() {
                            if r_snap[a] == p {
                                assert(r_snap.contains(p));
                                assert(false);
                            }
                        } else if b < r_snap.len() {
                            if r_snap[b] == p {
                                assert(r_snap.contains(p));
                                assert(false);
                            }
                        }
                    };
                    assert forall|x: PeerId| #[trigger] r@.contains(x) implies exists|k: int|
                        0 <= k < i_snap + 1 && self.explicit_peers@[k] == x && has_sub(
                        self.remote_subs@, x, topic@) by {
                        if x == p {
                            assert(self.explicit_peers@[i_snap] == x && has_sub(
                                self.remote_subs@, x, topic@));
                        } else {
                            assert(r_snap.contains(x));
                            let k = choose|k: int|
                                0 <= k < i_snap && self.explicit_peers@[k] == x && has_sub(
                                    self.remote_subs@, x, topic@);
                            assert(0 <= k < i_snap + 1 && self.explicit_peers@[k] == x && has_sub(
                                self.remote_subs@, x, topic@));
                        }
                    };
                    assert forall|x: PeerId| (exists|k: int|
                        0 <= k < i_snap + 1 && self.explicit_peers@[k] == x && has_sub(
                        self.remote_subs@, x, topic@)) implies #[trigger] r@.contains(x) by {
                        let k = choose|k: int|
                            0 <= k < i_snap + 1 && self.explicit_peers@[k] == x && has_sub(
                                self.remote_subs@, x, topic@);
                        if k < i_snap {
                            assert(r_snap.contains(x));
                            let j = choose|j: int| 0 <= j < r_snap.len() && r_snap[j] == x;
                            assert(r@[j] == x);
                        } else {
                            assert(x == p);
                            assert(r@[r_snap.len() as int] == x);
                        }
                    };
                }
            } else {
                proof {
                    assert forall|x: PeerId| (exists|k: int|
                        0 <= k < i_snap + 1 && self.explicit_peers@[k] == x && has_sub(
                        self.remote_subs@, x, topic@)) implies #[trigger] r@.contains(x) by {
                        let k = choose|k: int|
                            0 <= k < i_snap + 1 && self.explicit_peers@[k] == x && has_sub(
                                self.remote_subs@, x, topic@);
                        assert(k != i_snap);
                    };
                }
            }
            i += 1;
        }
        proof {
            assert forall|x: PeerId| r@.to_set().contains(x) implies recipients_model(
                self@, topic@).contains(x) by {
                let k = choose|k: int|
                    0 <= k < self.explicit_peers@.len() && self.explicit_peers@[k] == x && has_sub(
                        self.remote_subs@, x, topic@);
                assert(self.explicit_peers@[k] == x);
                assert(self.explicit_peers@.contains(x));
            };
            assert forall|x: PeerId| recipients_model(self@, topic@).contains(x) implies
                r@.to_set().contains(x) by {
                assert(self.explicit_peers@.to_set().contains(x));
                let k = choose|k: int|
                    0 <= k < self.explicit_peers@.len() && self.explicit_peers@[k] == x;
                assert(0 <= k < self.explicit_peers@.len() && self.explicit_peers@[k] == x
                    && has_sub(self.remote_subs@, x, topic@));
            };
            assert(r@.to_set() =~= recipients_model(self@, topic@));
        }
        r
    }
}

/// Joining a topic twice is idempotent: the second join changes no
/// membership and reports that nothing was added.
pub proof fn lemma_subscribe_idempotent(m: EngineModel, t: Seq<u8>)
    ensures
        subscribe_model(subscribe_model(m, t).0, t).0 == subscribe_model(m, t).0,
        !subscribe_model(subscribe_model(m, t).0, t).1,
{
}

/// The identifier a publish returns is a function of the payload bytes
/// alone: two engines — whatever their identities, configurations or
/// allow-lists — that successfully publish byte-identical payloads obtain
/// the same identifier.
pub proof fn lemma_publish_id_content_only(m1: EngineModel, m2: EngineModel, data: Seq<u8>)
    ensures
        publish_model(m1, data).1 is Ok ==> publish_model(m1, data).1 == Ok::<
            MessageId,
            PublishError,
        >(MessageId { id: content_hash(data) }),
        publish_model(m1, data).1 is Ok && publish_model(m2, data).1 is Ok ==> publish_model(
            m1, data).1 == publish_model(m2, data).1,
{
}

/// Under strict validation, a message whose signature does not verify is
/// dropped at the engine boundary: it is never accepted and leaves the
/// engine unchanged.
pub proof fn lemma_strict_drops_invalid(m: EngineModel, data: Seq<u8>)
    requires
        m.validation == ValidationMode::Strict,
    ensures
        accept_model(m, data, false) == (m, false),
{
}

/// Duplicate suppression: once a payload's content identifier has been
/// seen — by accepting it or by publishing it — a byte-identical payload is
/// never accepted again, whoever sends it and whatever its signature.
pub proof fn lemma_duplicate_not_reaccepted(m: EngineModel, data: Seq<u8>, sig_ok1: bool,
    sig_ok2: bool)
    ensures
        accept_model(m, data, sig_ok1).1 ==> accept_model(accept_model(m, data, sig_ok1).0, data,
            sig_ok2) == (accept_model(m, data, sig_ok1).0, false),
        publish_model(m, data).1 is Ok ==> accept_model(publish_model(m, data).0, data,
            sig_ok2) == (publish_model(m, data).0, false),
{
}

} // verus!

//! Laws of the facade's event stream: what holds of every drain of the
//! low-level event source, for every state and every event order.

use vstd::prelude::*;
use crate::engine::ValidationMode;
use crate::engine::accept_model;
use crate::network::LowEventModel;
use crate::network::NetworkModel;
use crate::network::PollOutcomeModel;
use crate::network::StreamItemModel;
use crate::network::step_model;
use crate::peer::PeerId;

verus! {

/// What a whole poll cycle produced: the first surfaced domain event, the
/// end of the stream, or nothing yet (the caller polls again later).
pub ghost enum DrainOutcome {
    First(StreamItemModel),
    Ended,
    Pending,
}

/// Draining the ready low-level items in order: each item is stepped
/// through `step_model` until one surfaces a domain event, the source
/// reports exhaustion, or the ready items run out.
pub open spec fn drain_model(m: NetworkModel, events: Seq<Option<LowEventModel>>) -> (
    NetworkModel,
    DrainOutcome,
)
    decreases events.len(),
{
    if m.terminated {
        (m, DrainOutcome::Ended)
    } else if events.len() == 0 {
        (m, DrainOutcome::Pending)
    } else {
        let stepped = step_model(m, events[0]);
        match stepped.1 {
            PollOutcomeModel::Event(it) => (stepped.0, DrainOutcome::First(it)),
            PollOutcomeModel::Exhausted => (stepped.0, DrainOutcome::Ended),
            PollOutcomeModel::NoEvent => drain_model(
                stepped.0,
                events.subrange(1, events.len() as int),
            ),
        }
    }
}

/// Terminal-state stickiness: once the facade is terminated, every
/// subsequent poll reports exhaustion, the state never changes again, and
/// no event is ever produced — whatever the driver hands it.
pub proof fn lemma_terminal_state_sticky(
    m: NetworkModel,
    event: Option<LowEventModel>,
    events: Seq<Option<LowEventModel>>,
)
    requires
        m.terminated,
    ensures
        step_model(m, event) == (m, PollOutcomeModel::Exhausted),
        drain_model(m, events) == (m, DrainOutcome::Ended),
{
}

/// Exhaustion is terminal and one-way: the poll that observes the source
/// exhausted reports exhaustion and leaves the facade terminated, and no
/// step ever clears the terminal flag — a step terminates the facade
/// exactly when it was already terminated or the source reported
/// exhaustion.
pub proof fn lemma_exhaustion_terminates(m: NetworkModel, event: Option<LowEventModel>)
    ensures
        step_model(m, Option::None).0.terminated,
        step_model(m, Option::None).1 == PollOutcomeModel::Exhausted,
        step_model(m, event).0.terminated == (m.terminated || event == Option::<
            LowEventModel,
        >::None),
{
}

/// An event that originates with a remote peer: inbound gossip traffic, a
/// remote subscription announcement, or a completed connection.
pub open spec fn is_peer_traffic(e: Option<LowEventModel>) -> bool {
    match e {
        Option::Some(LowEventModel::GossipMessage { .. }) => true,
        Option::Some(LowEventModel::GossipSubscribed { .. }) => true,
        Option::Some(LowEventModel::ConnectionEstablished { .. }) => true,
        _ => false,
    }
}

/// The transport's announcement that it began listening.
pub open spec fn is_listen_announcement(e: Option<LowEventModel>) -> bool {
    match e {
        Option::Some(LowEventModel::NewListenAddr(_)) => true,
        _ => false,
    }
}

/// The transport begins listening before any peer can reach it: in the
/// low-level event order, every peer-originated event is preceded by a
/// listen announcement.
pub open spec fn listen_precedes_traffic(events: Seq<Option<LowEventModel>>) -> bool {
    forall|i: int|
        0 <= i < events.len() && #[trigger] is_peer_traffic(events[i]) ==> exists|j: int|
            0 <= j < i && #[trigger] is_listen_announcement(events[j])
}

/// A freshly constructed facade's first surfaced event is always
/// `NewListenAddr`: whatever low-level events the transport delivers — as
/// long as it delivers peer traffic only after announcing that it listens —
/// the first domain event out of the stream is a listen address, preceding
/// any `PeerConnected`, `PeerSubscribed` or `Message` from the same
/// instance.
pub proof fn lemma_first_event_is_listen_addr(
    m: NetworkModel,
    events: Seq<Option<LowEventModel>>,
)
    requires
        !m.terminated,
        listen_precedes_traffic(events),
    ensures
        drain_model(m, events).1 matches DrainOutcome::First(it) ==> it matches
            StreamItemModel::NewListenAddr(_),
    decreases events.len(),
{
    if events.len() == 0 {
    } else {
        let e0 = events[0];
        if is_peer_traffic(e0) {
            assert(exists|j: int| 0 <= j < 0 && is_listen_announcement(events[j]));
            assert(false);
        }
        let stepped = step_model(m, e0);
        match stepped.1 {
            PollOutcomeModel::Event(it) => {
                assert(it matches StreamItemModel::NewListenAddr(_));
            },
            PollOutcomeModel::Exhausted => {},
            PollOutcomeModel::NoEvent => {
                let rest = events.subrange(1, events.len() as int);
                assert(!is_listen_announcement(e0));
                assert forall|i: int|
                    0 <= i < rest.len() && #[trigger] is_peer_traffic(rest[i]) implies exists|
                    j: int,
                |
                    0 <= j < i && #[trigger] is_listen_announcement(rest[j]) by {
                    assert(rest[i] == events[i + 1]);
                    assert(is_peer_traffic(events[i + 1]));
                    let j0 = choose|j0: int|
                        0 <= j0 < i + 1 && #[trigger] is_listen_announcement(events[j0]);
                    assert(j0 != 0);
                    assert(rest[j0 - 1] == events[j0]);
                    assert(0 <= j0 - 1 < i && is_listen_announcement(rest[j0 - 1]));
                };
                assert(!stepped.0.terminated);
                lemma_first_event_is_listen_addr(stepped.0, rest);
                assert(drain_model(m, events) == drain_model(stepped.0, rest));
            },
        }
    }
}

/// The item is a surfaced delivery carrying the content identifier `id`.
pub open spec fn is_delivery_of(it: StreamItemModel, id: u64) -> bool {
    match it {
        StreamItemModel::Message { id: mid, .. } => mid == id,
        _ => false,
    }
}

/// Every domain event a whole run of the facade surfaces, in order: each
/// ready low-level item is stepped in turn and the surfaced items are
/// collected, however many poll cycles that takes.
pub open spec fn trace_model(m: NetworkModel, events: Seq<Option<LowEventModel>>) -> (
    NetworkModel,
    Seq<StreamItemModel>,
)
    decreases events.len(),
{
    if events.len() == 0 {
        (m, Seq::empty())
    } else {
        let stepped = step_model(m, events[0]);
        let rest = trace_model(stepped.0, events.subrange(1, events.len() as int));
        match stepped.1 {
            PollOutcomeModel::Event(it) => (rest.0, seq![it] + rest.1),
            _ => rest,
        }
    }
}

/// No step forgets a seen content identifier: the dedup record only grows.
pub proof fn lemma_seen_monotone(m: NetworkModel, e: Option<LowEventModel>, id: u64)
    requires
        m.engine.seen.contains(id),
    ensures
        step_model(m, e).0.engine.seen.contains(id),
{
}

/// A delivery surfaces only if its identifier was not yet seen, and it
/// leaves the identifier seen.
pub proof fn lemma_delivery_marks_seen(m: NetworkModel, e: Option<LowEventModel>, id: u64)
    requires
        step_model(m, e).1 matches PollOutcomeModel::Event(it) && is_delivery_of(it, id),
    ensures
        !m.engine.seen.contains(id),
        step_model(m, e).0.engine.seen.contains(id),
{
}

/// While a content identifier is on the dedup record, no delivery in any
/// later run of the facade carries it.
pub proof fn lemma_seen_id_never_delivered(
    m: NetworkModel,
    events: Seq<Option<LowEventModel>>,
    id: u64,
)
    requires
        m.engine.seen.contains(id),
    ensures
        forall|k: int|
            0 <= k < trace_model(m, events).1.len() ==> !is_delivery_of(
                #[trigger] trace_model(m, events).1[k],
                id,
            ),
    decreases events.len(),
{
    if events.len() == 0 {
    } else {
        let stepped = step_model(m, events[0]);
        let rest = events.subrange(1, events.len() as int);
        let tr_rest = trace_model(stepped.0, rest).1;
        lemma_seen_monotone(m, events[0], id);
        lemma_seen_id_never_delivered(stepped.0, rest, id);
        match stepped.1 {
            PollOutcomeModel::Event(it) => {
                if is_delivery_of(it, id) {
                    lemma_delivery_marks_seen(m, events[0], id);
                    assert(false);
                }
                let tr = trace_model(m, events).1;
                assert(tr == seq![it] + tr_rest);
                assert forall|k: int| 0 <= k < tr.len() implies !is_delivery_of(
                    #[trigger] tr[k],
                    id,
                ) by {
                    if k == 0 {
                        assert(tr[0] == it);
                    } else {
                        assert(tr[k] == tr_rest[k - 1]);
                    }
                };
            },
            PollOutcomeModel::NoEvent => {},
            PollOutcomeModel::Exhausted => {},
        }
    }
}

/// Duplicate suppression of the surfaced stream: over any whole run of the
/// facade, no two deliveries share a content identifier — a payload
/// re-flooded by however many peers is re-emitted to the local consumer at
/// most once, and a byte-identical payload from a different publisher
/// counts as the same message.
pub proof fn lemma_no_duplicate_delivery(m: NetworkModel, events: Seq<Option<LowEventModel>>)
    ensures
        forall|i: int, j: int, id: u64|
            0 <= i < j < trace_model(m, events).1.len() ==> !(#[trigger] is_delivery_of(
                trace_model(m, events).1[i],
                id,
            ) && #[trigger] is_delivery_of(trace_model(m, events).1[j], id)),
    decreases events.len(),
{
    if events.len() == 0 {
    } else {
        let stepped = step_model(m, events[0]);
        let rest = events.subrange(1, events.len() as int);
        let tr_rest = trace_model(stepped.0, rest).1;
        lemma_no_duplicate_delivery(stepped.0, rest);
        match stepped.1 {
            PollOutcomeModel::Event(it) => {
                let tr = trace_model(m, events).1;
                assert(tr == seq![it] + tr_rest);
                assert forall|i: int, j: int, id: u64|
                    0 <= i < j < tr.len() implies !(#[trigger] is_delivery_of(tr[i], id)
                    && #[trigger] is_delivery_of(tr[j], id)) by {
                    if i == 0 {
                        assert(tr[0] == it);
                        assert(tr[j] == tr_rest[j - 1]);
                        if is_delivery_of(it, id) && is_delivery_of(tr_rest[j - 1], id) {
                            lemma_delivery_marks_seen(m, events[0], id);
                            lemma_seen_id_never_delivered(stepped.0, rest, id);
                            assert(false);
                        }
                    } else {
                        assert(tr[i] == tr_rest[i - 1]);
                        assert(tr[j] == tr_rest[j - 1]);
                    }
                };
            },
            PollOutcomeModel::NoEvent => {},
            PollOutcomeModel::Exhausted => {},
        }
    }
}

/// Under strict validation, one inbound message whose signature does not
/// verify is consumed without surfacing anything and without any change of
/// state.
pub proof fn lemma_strict_drop_is_silent(m: NetworkModel, source: PeerId, data: Seq<u8>)
    requires
        !m.terminated,
        m.engine.validation == ValidationMode::Strict,
    ensures
        step_model(m, Option::Some(LowEventModel::GossipMessage { source, data, sig_ok: false }))
            == (m, PollOutcomeModel::NoEvent),
{
    let stepped = step_model(
        m,
        Option::Some(LowEventModel::GossipMessage { source, data, sig_ok: false }),
    );
    assert(accept_model(m.engine, data, false).0 == m.engine);
    assert(stepped.0 =~= m);
}

/// Every inbound message among the ready low-level items failed signature
/// verification.
pub open spec fn all_inbound_unverified(events: Seq<Option<LowEventModel>>) -> bool {
    forall|i: int|
        0 <= i < events.len() ==> match #[trigger] events[i] {
            Option::Some(LowEventModel::GossipMessage { sig_ok, .. }) => !sig_ok,
            _ => true,
        }
}

/// A message with an invalid signature under strict mode never appears as a
/// `Message` event: if every inbound message among the ready items failed
/// signature verification, no drain of the stream ever surfaces a
/// `Message`, whoever sent them and whatever they carried.
pub proof fn lemma_unverified_never_surfaces(
    m: NetworkModel,
    events: Seq<Option<LowEventModel>>,
)
    requires
        m.engine.validation == ValidationMode::Strict,
        all_inbound_unverified(events),
    ensures
        !(drain_model(m, events).1 matches DrainOutcome::First(StreamItemModel::Message { .. })),
    decreases events.len(),
{
    if m.terminated || events.len() == 0 {
    } else {
        let e0 = events[0];
        let stepped = step_model(m, e0);
        match stepped.1 {
            PollOutcomeModel::Event(it) => {
                assert(!(it matches StreamItemModel::Message { .. }));
            },
            PollOutcomeModel::Exhausted => {},
            PollOutcomeModel::NoEvent => {
                let rest = events.subrange(1, events.len() as int);
                assert(stepped.0.engine.validation == ValidationMode::Strict);
                assert forall|i: int| 0 <= i < rest.len() implies match #[trigger] rest[i] {
                    Option::Some(LowEventModel::GossipMessage { sig_ok, .. }) => !sig_ok,
                    _ => true,
                } by {
                    assert(rest[i] == events[i + 1]);
                };
                lemma_unverified_never_surfaces(stepped.0, rest);
                assert(drain_model(m, events) == drain_model(stepped.0, rest));
            },
        }
    }
}

} // verus!

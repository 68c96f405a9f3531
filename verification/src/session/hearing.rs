//! What the peers of a session hear of an event, and what the log keeps of it,
//! told in words of the outbox: who is sent which frame, in which order.

use crate::assoc;
use crate::multiplex::subscriber::{DeliveryView, OutMsgView, SubscriberView};
use crate::session::laws;
use crate::session::sound;
use crate::session::state;
use crate::session::state::{ReplayEntryView, SessionView};
use vstd::prelude::*;

verus! {

/// The peers whose channel takes messages, in the order in which they came.
pub open spec fn open_peers(subscribers: Seq<(Seq<char>, SubscriberView)>) -> Seq<
    (Seq<char>, SubscriberView),
> {
    subscribers.filter(|peer: (Seq<char>, SubscriberView)| peer.1.open)
}

/// One frame to each of some peers.
pub open spec fn round(peers: Seq<(Seq<char>, SubscriberView)>, frame: Seq<u8>) -> Seq<
    DeliveryView,
> {
    Seq::new(
        peers.len(),
        |i: int| DeliveryView { peer_id: peers[i].0, message: OutMsgView::Frame(frame) },
    )
}

/// Some frames, each to all of some peers before the next.
pub open spec fn rounds(
    peers: Seq<(Seq<char>, SubscriberView)>,
    frames: Seq<Seq<u8>>,
) -> Seq<DeliveryView>
    decreases frames.len(),
{
    if frames.len() == 0 {
        Seq::empty()
    } else {
        rounds(peers, frames.drop_last()) + round(peers, frames.last())
    }
}

/// Whether the log, where there is one, has these frames more, as they are and in
/// this order, behind everything that it had.
pub open spec fn logged(
    before: Option<Seq<ReplayEntryView>>,
    after: Option<Seq<ReplayEntryView>>,
    frames: Seq<Seq<u8>>,
    clock: Seq<char>,
) -> bool {
    match (before, after) {
        (Some(log), Some(longer)) => {
            &&& longer.len() == log.len() + frames.len()
            &&& forall|i: int| 0 <= i < log.len() ==> longer[i] == #[trigger] log[i]
            &&& forall|i: int|
                0 <= i < frames.len() ==> longer[log.len() + i].frame == #[trigger] frames[i]
                    && longer[log.len() + i].recorded_at == clock
        },
        (None, None) => true,
        _ => false,
    }
}

/// Whether everybody hears these frames, in this order, and nothing else, and the
/// log keeps them.
pub open spec fn told(before: SessionView, after: SessionView, frames: Seq<Seq<u8>>) -> bool {
    &&& after.outbox == before.outbox + rounds(open_peers(before.subscribers), frames)
    &&& logged(before.replay_log, after.replay_log, frames, before.clock)
    &&& after.subscribers == if frames.len() == 0 {
        before.subscribers
    } else {
        open_peers(before.subscribers)
    }
    &&& after.clock == before.clock
}

/// One frame to one peer, where its channel takes it.
pub open spec fn only_to(session: SessionView, peer_id: Seq<char>, message: OutMsgView) -> Seq<
    DeliveryView,
> {
    if exists|i: int|
        0 <= i < session.subscribers.len() && (#[trigger] session.subscribers[i]).0 == peer_id
            && session.subscribers[i].1.open {
        seq![DeliveryView { peer_id, message }]
    } else {
        Seq::empty()
    }
}

/// The peers that a broadcast reaches are those whose channel takes messages.
pub proof fn lemma_live_is_open(subscribers: Seq<(Seq<char>, SubscriberView)>)
    ensures
        state::live(subscribers) == open_peers(subscribers),
    decreases subscribers.len(),
{
    reveal(Seq::filter);
    if subscribers.len() > 0 {
        lemma_live_is_open(subscribers.drop_last());
    }
}

pub proof fn lemma_open_twice(subscribers: Seq<(Seq<char>, SubscriberView)>)
    ensures
        open_peers(open_peers(subscribers)) == open_peers(subscribers),
    decreases subscribers.len(),
{
    reveal(Seq::filter);
    if subscribers.len() > 0 {
        let front = open_peers(subscribers.drop_last());
        lemma_open_twice(subscribers.drop_last());
        if subscribers.last().1.open {
            assert(front.push(subscribers.last()).drop_last() =~= front);
        }
    }
}

/// Where nothing is told, nobody hears anything.
pub proof fn lemma_told_nothing(session: SessionView)
    ensures
        told(session, session, Seq::empty()),
{
    assert(session.outbox + rounds(open_peers(session.subscribers), Seq::empty())
        =~= session.outbox);
}

/// One more frame to everybody is heard last.
pub proof fn lemma_told_more(
    before: SessionView,
    after: SessionView,
    frames: Seq<Seq<u8>>,
    frame: Seq<u8>,
)
    requires
        told(before, after, frames),
    ensures
        told(before, after.broadcast(frame), frames.push(frame)),
{
    let more = frames.push(frame);
    let peers = open_peers(before.subscribers);
    lemma_live_is_open(before.subscribers);
    lemma_live_is_open(after.subscribers);
    lemma_open_twice(before.subscribers);
    assert(more.drop_last() =~= frames);
    let later = after.broadcast(frame);
    assert(state::to_each(peers, OutMsgView::Frame(frame)) =~= round(peers, frame));
    assert(later.outbox =~= before.outbox + rounds(peers, more));
    if let Some(log) = before.replay_log {
        let longer = later.replay_log->Some_0;
        let shorter = after.replay_log->Some_0;
        assert(longer == shorter.push(longer.last()));
        assert forall|i: int| 0 <= i < more.len() implies longer[log.len() + i].frame
            == #[trigger] more[i] && longer[log.len() + i].recorded_at == before.clock by {
            if i < frames.len() {
                assert(more[i] == frames[i]);
            }
        }
        assert forall|i: int| 0 <= i < log.len() implies longer[i] == #[trigger] log[i] by {
            assert(shorter[i] == log[i]);
        }
    }
}

/// Frames to everybody are heard in their order.
pub proof fn lemma_told_all(
    before: SessionView,
    after: SessionView,
    frames: Seq<Seq<u8>>,
    more: Seq<Seq<u8>>,
)
    requires
        told(before, after, frames),
    ensures
        told(before, after.broadcast_all(more), frames + more),
    decreases more.len(),
{
    if more.len() > 0 {
        lemma_told_all(before, after, frames, more.drop_last());
        lemma_told_more(
            before,
            after.broadcast_all(more.drop_last()),
            frames + more.drop_last(),
            more.last(),
        );
        assert((frames + more.drop_last()).push(more.last()) =~= frames + more);
    } else {
        assert(frames + more =~= frames);
    }
}

/// Whom a message reaches.
pub proof fn lemma_reach(session: SessionView, peer_id: Seq<char>, message: OutMsgView)
    requires
        assoc::distinct(session.subscribers),
    ensures
        session.send_to(peer_id, message).outbox == session.outbox + only_to(
            session,
            peer_id,
            message,
        ),
        session.reachable(peer_id) <==> only_to(session, peer_id, message).len() == 1,
        !session.reachable(peer_id) <==> only_to(session, peer_id, message).len() == 0,
{
    assoc::lemma_index_of(session.subscribers, peer_id);
    let at = assoc::index_of(session.subscribers, peer_id);
    if session.reachable(peer_id) {
        assert(session.subscribers[at].0 == peer_id && session.subscribers[at].1.open);
        assert(session.send_to(peer_id, message).outbox =~= session.outbox + only_to(
            session,
            peer_id,
            message,
        ));
    } else {
        if exists|i: int|
            0 <= i < session.subscribers.len() && (#[trigger] session.subscribers[i]).0 == peer_id
                && session.subscribers[i].1.open {
            let i = choose|i: int|
                0 <= i < session.subscribers.len() && (#[trigger] session.subscribers[i]).0
                    == peer_id && session.subscribers[i].1.open;
            assert(i == at);
        }
        assert(session.outbox + Seq::<DeliveryView>::empty() =~= session.outbox);
    }
}

/// Who is reached before something is told is reached after it.
pub proof fn lemma_told_reach(
    before: SessionView,
    after: SessionView,
    frames: Seq<Seq<u8>>,
    peer_id: Seq<char>,
)
    requires
        told(before, after, frames),
        assoc::distinct(before.subscribers),
    ensures
        assoc::distinct(after.subscribers),
        after.reachable(peer_id) == before.reachable(peer_id),
{
    lemma_live_is_open(before.subscribers);
    laws::lemma_live_lookup(before.subscribers, peer_id);
    sound::lemma_live(before.subscribers);
}

/// Everybody hears the frames and then one peer gets a message of its own: what
/// the outbox holds more.
pub proof fn lemma_told_then(
    before: SessionView,
    after: SessionView,
    frames: Seq<Seq<u8>>,
    peer_id: Seq<char>,
    message: OutMsgView,
)
    requires
        told(before, after, frames),
        assoc::distinct(before.subscribers),
    ensures
        after.send_to(peer_id, message).outbox == before.outbox + rounds(
            open_peers(before.subscribers),
            frames,
        ) + only_to(before, peer_id, message),
{
    lemma_told_reach(before, after, frames, peer_id);
    lemma_reach(before, peer_id, message);
    lemma_reach(after, peer_id, message);
}

} // verus!

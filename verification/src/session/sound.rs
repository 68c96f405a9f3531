//! What holds of every session, from its first peer to its end.
//!
//! [`SessionView::sound`] is the invariant. [`law_start_is_sound`],
//! [`law_step_stays_sound`] and [`law_finish_stays_sound`] say that it holds at
//! the start and is kept by every event.

use crate::assoc;
use crate::cli::{ClientToolPolicy, ReplayTurns};
use crate::json;
use crate::json::JsonView;
use crate::multiplex::subscriber::SubscriberView;
use crate::protocol::amux;
use crate::protocol::amux::AmuxTurnId;
use crate::protocol::jsonrpc::{
    IdView, IncomingView, NotificationView, RequestView, ResponseView,
};
use crate::protocol::session_update;
use crate::scan;
use crate::session::actor::{ActorView, ExitReason, MsgView};
use crate::session::agent;
use crate::session::control;
use crate::session::control::ControlView;
use crate::session::inbound;
use crate::session::metadata;
use crate::session::metadata::IndexView;
use crate::session::state;
use crate::session::state::{
    AgentReqState, HandshakeView, PendingView, PermissionView, QueuedPromptKind, QueuedPromptView, SessionView,
    MAX_MUX_QUEUE_PROMPTS,
};
use crate::session::turn;
use crate::text;
use vstd::prelude::*;

verus! {

broadcast use {metadata::lemma_upsert_sound, metadata::lemma_remove_sound};

/// No two peers share an id, and each stands under its own.
pub open spec fn peers_sound(subscribers: Seq<(Seq<char>, SubscriberView)>) -> bool {
    &&& assoc::distinct(subscribers)
    &&& forall|i: int|
        0 <= i < subscribers.len() ==> (#[trigger] subscribers[i]).0 == subscribers[i].1.peer_id
}

/// At most six prompts of kind `Queue` wait, and at most one that steers. The
/// prompts of kind `Queue`, and no others, have numbers, and no two the same.
pub open spec fn queue_sound(prompts: Seq<QueuedPromptView>, next_queue_item_id: u64) -> bool {
    &&& control::queue_count(prompts) <= MAX_MUX_QUEUE_PROMPTS
    &&& forall|i: int, j: int|
        #![trigger prompts[i], prompts[j]]
        0 <= i < j < prompts.len() ==> !(prompts[i].kind is HardSteer && prompts[j].kind is HardSteer)
    &&& forall|i: int|
        0 <= i < prompts.len() ==> ((#[trigger] prompts[i]).queue_item_id is Some <==> prompts[i].kind is Queue)
    &&& forall|i: int|
        0 <= i < prompts.len() ==> numbered_before(#[trigger] prompts[i], next_queue_item_id)
    &&& forall|i: int, j: int|
        #![trigger prompts[i], prompts[j]]
        0 <= i < j < prompts.len() && prompts[i].queue_item_id is Some
            ==> prompts[i].queue_item_id != prompts[j].queue_item_id
}

/// The number of a waiting prompt, where it has one, was given out before.
pub open spec fn numbered_before(prompt: QueuedPromptView, next_queue_item_id: u64) -> bool {
    prompt.queue_item_id matches Some(id) ==> exists|n: u64|
        n < next_queue_item_id && id == #[trigger] control::queue_item_text(n)
}

/// Every permission request that waits is one that the agent still waits for.
pub open spec fn permissions_sound(
    permissions: Seq<PermissionView>,
    agent_pending: Seq<(IdView, AgentReqState)>,
) -> bool {
    forall|p: PermissionView| #[trigger]
        permissions.contains(p) ==> assoc::lookup(agent_pending, p.id) == Some(
            AgentReqState::InFlight,
        )
}

impl SessionView {
    /// What is forwarded to the agent stands under ids that were given out, no
    /// two the same.
    pub open spec fn requests_sound(self) -> bool {
        &&& self.next_mux_id >= 1
        &&& assoc::distinct(self.pending)
        &&& forall|i: int|
            0 <= i < self.pending.len() ==> 1 <= (#[trigger] self.pending[i]).0 < self.next_mux_id
    }

    /// The active turn, where there is one, is a request that the agent has not
    /// answered, none whose answer is remembered, and has a number that was
    /// given out.
    pub open spec fn turn_sound(self) -> bool {
        match (self.active_turn_mux_id, self.active_amux_turn_id) {
            (Some(mux_id), Some(turn_id)) => {
                &&& assoc::lookup(self.pending, mux_id) matches Some(pending)
                    && pending.handshake is None
                &&& turn_id.0 < self.next_amux_turn_id
            },
            (None, None) => self.active_turn_session_id is None && self.active_turn_prompt_text
                is None,
            _ => false,
        }
    }

    /// Everything but that no prompt waits without an active turn.
    pub open spec fn consistent(self) -> bool {
        &&& peers_sound(self.subscribers)
        &&& self.requests_sound()
        &&& self.turn_sound()
        &&& queue_sound(self.queued_prompts, self.next_queue_item_id)
        &&& assoc::distinct(self.agent_pending)
        &&& permissions_sound(self.pending_permission_frames, self.agent_pending)
        &&& self.index.sound()
    }

    /// The invariant of a session.
    pub open spec fn sound(self) -> bool {
        &&& self.consistent()
        &&& self.active_turn_mux_id is None ==> self.queued_prompts.len() == 0
    }

    /// The session without its active turn.
    pub open spec fn idle(self) -> SessionView {
        SessionView {
            active_turn_mux_id: None,
            active_turn_session_id: None,
            active_turn_prompt_text: None,
            active_amux_turn_id: None,
            ..self
        }
    }

    /// The counters have a number left to give out.
    pub open spec fn counters_left(self) -> bool {
        &&& self.next_mux_id < u64::MAX
        &&& self.next_amux_turn_id < u64::MAX
        &&& self.next_queue_item_id < u64::MAX
    }
}

/// The peers that are still reachable are some of the peers, in their order.
pub proof fn lemma_live(subscribers: Seq<(Seq<char>, SubscriberView)>)
    ensures
        state::live(subscribers).len() <= subscribers.len(),
        forall|peer: (Seq<char>, SubscriberView)| #[trigger]
            state::live(subscribers).contains(peer) ==> subscribers.contains(peer) && peer.1.open,
        forall|peer: (Seq<char>, SubscriberView)| #[trigger]
            subscribers.contains(peer) && peer.1.open ==> state::live(subscribers).contains(peer),
        assoc::distinct(subscribers) ==> assoc::distinct(state::live(subscribers)),
        peers_sound(subscribers) ==> peers_sound(state::live(subscribers)),
    decreases subscribers.len(),
{
    if subscribers.len() > 0 {
        let front = subscribers.drop_last();
        let last = subscribers.last();
        lemma_live(front);
        assert(subscribers =~= front.push(last));
        let kept = state::live(front);
        let all = state::live(subscribers);
        assert forall|peer: (Seq<char>, SubscriberView)| #[trigger]
            subscribers.contains(peer) && peer.1.open implies all.contains(peer) by {
            let i = choose|i: int| 0 <= i < subscribers.len() && subscribers[i] == peer;
            if i < front.len() {
                assert(front[i] == peer);
                assert(front.contains(peer));
                let j = choose|j: int| 0 <= j < kept.len() && kept[j] == peer;
                assert(all[j] == peer);
            } else {
                assert(all.last() == peer);
            }
        }
        assert forall|peer: (Seq<char>, SubscriberView)| #[trigger]
            all.contains(peer) implies subscribers.contains(peer) && peer.1.open by {
            let j = choose|j: int| 0 <= j < all.len() && all[j] == peer;
            if j < kept.len() {
                assert(kept[j] == peer);
                assert(kept.contains(peer));
                assert(front.contains(peer));
                let i = choose|i: int| 0 <= i < front.len() && front[i] == peer;
                assert(subscribers[i] == peer);
            } else {
                assert(subscribers[subscribers.len() - 1] == peer);
            }
        }
        if assoc::distinct(subscribers) {
            assert(assoc::distinct(front));
            assert forall|i: int, j: int| 0 <= i < j < all.len() implies all[i].0 != all[j].0 by {
                if j == kept.len() {
                    assert(kept[i] == all[i]);
                    assert(kept.contains(all[i]));
                    assert(front.contains(all[i]));
                    let k = choose|k: int| 0 <= k < front.len() && front[k] == all[i];
                    assert(subscribers[k] == all[i]);
                }
            }
        }
        if peers_sound(subscribers) {
            assert(peers_sound(front)) by {
                assert forall|i: int| 0 <= i < front.len() implies (#[trigger] front[i]).0
                    == front[i].1.peer_id by {
                    assert(front[i] == subscribers[i]);
                }
            }
            assert forall|i: int| 0 <= i < all.len() implies (#[trigger] all[i]).0
                == all[i].1.peer_id by {
                assert(all.contains(all[i]));
                let k = choose|k: int| 0 <= k < subscribers.len() && subscribers[k] == all[i];
                assert(subscribers[k].0 == subscribers[k].1.peer_id);
            }
        }
    }
}

/// Telling the peers something keeps a session consistent.
broadcast proof fn lemma_broadcast(session: SessionView, frame: Seq<u8>)
    ensures
        session.consistent() ==> (#[trigger] session.broadcast(frame)).consistent(),
        session.sound() ==> session.broadcast(frame).sound(),
{
    lemma_live(session.subscribers);
}

/// Telling the peers something that is not recorded keeps a session consistent.
broadcast proof fn lemma_fan_out(session: SessionView, frame: Seq<u8>)
    ensures
        session.consistent() ==> (#[trigger] session.fan_out(frame)).consistent(),
        session.sound() ==> session.fan_out(frame).sound(),
{
    lemma_live(session.subscribers);
}

/// Telling the peers several things keeps a session consistent.
proof fn lemma_broadcast_all(session: SessionView, frames: Seq<Seq<u8>>)
    ensures
        session.consistent() ==> session.broadcast_all(frames).consistent(),
        session.sound() ==> session.broadcast_all(frames).sound(),
    decreases frames.len(),
{
    broadcast use lemma_broadcast;

    if frames.len() > 0 {
        lemma_broadcast_all(session, frames.drop_last());
    }
}

/// Taking out one prompt takes one away from the count, where it counts.
pub proof fn lemma_queue_count_remove(prompts: Seq<QueuedPromptView>, at: int)
    requires
        0 <= at < prompts.len(),
    ensures
        control::queue_count(prompts) == control::queue_count(prompts.remove(at)) + if prompts[at].kind is Queue {
            1nat
        } else {
            0nat
        },
    decreases prompts.len(),
{
    let rest = prompts.remove(at);
    if at == prompts.len() - 1 {
        assert(rest =~= prompts.drop_last());
    } else {
        lemma_queue_count_remove(prompts.drop_last(), at);
        assert(rest.drop_last() =~= prompts.drop_last().remove(at));
        assert(rest.last() == prompts.last());
    }
}

/// The queue stays sound when a prompt leaves it.
proof fn lemma_queue_remove(prompts: Seq<QueuedPromptView>, next: u64, at: int)
    requires
        queue_sound(prompts, next),
        0 <= at < prompts.len(),
    ensures
        queue_sound(prompts.remove(at), next),
{
    lemma_queue_count_remove(prompts, at);
    let rest = prompts.remove(at);
    assert forall|i: int| 0 <= i < rest.len() implies #[trigger] rest[i] == prompts[if i < at {
        i
    } else {
        i + 1
    }] by {}
}

/// The number of a queue item is given by its text.
pub proof fn lemma_queue_item_text(a: u64, b: u64)
    ensures
        control::queue_item_text(a) == control::queue_item_text(b) ==> a == b,
{
    if control::queue_item_text(a) == control::queue_item_text(b) {
        let x = text::decimal_of(a as nat);
        let y = text::decimal_of(b as nat);
        let prefix = "q-"@;
        assert(x =~= control::queue_item_text(a).skip(prefix.len() as int));
        assert(y =~= control::queue_item_text(b).skip(prefix.len() as int));
        scan::law_decimal_reads_back(a as nat, u64::MAX as nat);
        scan::law_decimal_reads_back(b as nat, u64::MAX as nat);
    }
}

/// Numbers that were given out before stay so.
proof fn lemma_numbered(prompts: Seq<QueuedPromptView>, next: u64, later: u64)
    requires
        next <= later,
        forall|i: int| 0 <= i < prompts.len() ==> numbered_before(#[trigger] prompts[i], next),
    ensures
        forall|i: int| 0 <= i < prompts.len() ==> numbered_before(#[trigger] prompts[i], later),
{
    assert forall|i: int| 0 <= i < prompts.len() implies numbered_before(
        #[trigger] prompts[i],
        later,
    ) by {
        if let Some(id) = prompts[i].queue_item_id {
            let n = choose|n: u64| n < next && id == #[trigger] control::queue_item_text(n);
            assert(n < later && id == control::queue_item_text(n));
        }
    }
}

/// A prompt joins the end of the queue, where there is room.
proof fn lemma_enqueue(session: SessionView, peer_id: Seq<char>, control: ControlView)
    requires
        session.consistent(),
        session.counters_left(),
        control::queue_count(session.queued_prompts) < MAX_MUX_QUEUE_PROMPTS,
    ensures
        session.enqueue(peer_id, control).consistent(),
        session.enqueue(peer_id, control).active_turn_mux_id == session.active_turn_mux_id,
        session.enqueue(peer_id, control).next_mux_id == session.next_mux_id,
        session.enqueue(peer_id, control).next_amux_turn_id == session.next_amux_turn_id,
        session.enqueue(peer_id, control).queued_prompts.len() == session.queued_prompts.len() + 1,
{
    broadcast use lemma_broadcast;

    let next = session.next_queue_item_id;
    let item = QueuedPromptView {
        queue_item_id: Some(control::queue_item_text(next)),
        peer_id,
        session_id: control.session_id,
        prompt_text: control.text,
        kind: QueuedPromptKind::Queue,
    };
    let before = session.queued_prompts;
    let after = before.push(item);
    assert(after.drop_last() =~= before);
    lemma_numbered(before, next, (next + 1) as u64);
    assert(next < next + 1 && item.queue_item_id->Some_0 == control::queue_item_text(next));
    assert(numbered_before(item, (next + 1) as u64));
    assert forall|i: int| 0 <= i < before.len() implies (#[trigger] before[i]).queue_item_id
        != item.queue_item_id by {
        if let Some(id) = before[i].queue_item_id {
            let n = choose|n: u64| n < next && id == #[trigger] control::queue_item_text(n);
            lemma_queue_item_text(n, next);
        }
    }
    assert forall|i: int| 0 <= i < after.len() implies #[trigger] after[i] == if i < before.len() {
        before[i]
    } else {
        item
    } by {}
    assert(queue_sound(after, (next + 1) as u64));
    let queued = SessionView {
        next_queue_item_id: state::bump(next),
        queued_prompts: after,
        ..session
    };
    assert(queued.consistent());
}

/// A prompt without a number goes to the front of the queue.
proof fn lemma_push_front(session: SessionView, item: QueuedPromptView)
    requires
        session.consistent(),
        item.queue_item_id is None,
        item.kind !is Queue,
        item.kind is HardSteer ==> !control::steer_pending(session.queued_prompts),
    ensures
        session.push_front(item).consistent(),
{
    let before = session.queued_prompts;
    let after = before.insert(0, item);
    assert(after.remove(0) =~= before);
    lemma_queue_count_remove(after, 0);
    assert forall|i: int, j: int|
        #![trigger after[i], after[j]]
        0 <= i < j < after.len() implies !(after[i].kind is HardSteer && after[j].kind is HardSteer)
        && (after[i].queue_item_id is Some ==> after[i].queue_item_id != after[j].queue_item_id) by {
        assert(after[j] == before[j - 1]);
        if i > 0 {
            assert(after[i] == before[i - 1]);
        }
    }
    assert forall|i: int| 0 <= i < after.len() implies numbered_before(
        #[trigger] after[i],
        session.next_queue_item_id,
    ) && (after[i].queue_item_id is Some <==> after[i].kind is Queue) by {
        if i > 0 {
            assert(after[i] == before[i - 1]);
        }
    }
    assert(queue_sound(after, session.next_queue_item_id));
}

/// Telling the peers of a turn keeps a session consistent.
proof fn lemma_emit_turn_started(
    session: SessionView,
    peer_id: Seq<char>,
    turn_id: AmuxTurnId,
    params: Option<JsonView>,
    supersedes: Option<AmuxTurnId>,
)
    ensures
        session.consistent() ==> session.emit_turn_started(
            peer_id,
            turn_id,
            params,
            supersedes,
        ).consistent(),
        session.sound() ==> session.emit_turn_started(
            peer_id,
            turn_id,
            params,
            supersedes,
        ).sound(),
{
    broadcast use lemma_broadcast;

}

/// A request takes the next mux id.
proof fn lemma_take_mux_id(session: SessionView, pending: PendingView)
    requires
        session.requests_sound(),
        session.next_mux_id < u64::MAX,
    ensures
        ({
            let entered = SessionView {
                next_mux_id: state::bump(session.next_mux_id),
                pending: assoc::store(session.pending, session.next_mux_id, pending),
                ..session
            };
            &&& entered.requests_sound()
            &&& assoc::lookup(entered.pending, session.next_mux_id) == Some(pending)
            &&& forall|mux_id: u64|
                assoc::holds(session.pending, mux_id) ==> #[trigger] assoc::lookup(
                    entered.pending,
                    mux_id,
                ) == assoc::lookup(session.pending, mux_id)
        }),
{
    let mux_id = session.next_mux_id;
    let after = assoc::store(session.pending, mux_id, pending);
    assoc::lemma_store(session.pending, mux_id, pending, mux_id);
    assoc::lemma_index_of(session.pending, mux_id);
    assert forall|other: u64| assoc::holds(session.pending, other) implies #[trigger] assoc::lookup(
        after,
        other,
    ) == assoc::lookup(session.pending, other) by {
        assoc::lemma_store(session.pending, mux_id, pending, other);
        assoc::lemma_index_of(session.pending, other);
    }
}

/// A waiting prompt becomes the active turn.
proof fn lemma_submit(session: SessionView)
    requires
        session.consistent(),
        session.active_turn_mux_id is None,
        session.next_mux_id < u64::MAX,
        session.next_amux_turn_id < u64::MAX,
    ensures
        session.submit_next_queued_prompt().0.sound(),
{
    broadcast use lemma_broadcast;

    if session.queued_prompts.len() > 0 {
        let item = session.queued_prompts[0];
        let next = session.next_queue_item_id;
        lemma_queue_remove(session.queued_prompts, next, 0);
        assert(session.queued_prompts.remove(0) =~= session.queued_prompts.drop_first());
        let popped = SessionView {
            queued_prompts: session.queued_prompts.drop_first(),
            ..session
        }.note_driving_subscriber(item.peer_id);
        assert(popped.consistent());
        let turn_id = AmuxTurnId(popped.next_amux_turn_id);
        let pending = PendingView {
            peer_id: item.peer_id,
            original_id: state::wire_id(popped.next_mux_id),
            handshake: None,
            decorate_session_list: false,
            deliver_response: false,
            queue_item_id: item.queue_item_id,
        };
        lemma_take_mux_id(popped, pending);
        let entered = SessionView {
            next_mux_id: state::bump(popped.next_mux_id),
            next_amux_turn_id: state::bump(popped.next_amux_turn_id),
            pending: assoc::store(popped.pending, popped.next_mux_id, pending),
            active_turn_mux_id: Some(popped.next_mux_id),
            active_amux_turn_id: Some(turn_id),
            active_turn_session_id: Some(item.session_id),
            active_turn_prompt_text: Some(item.prompt_text),
            ..popped
        };
        assert(entered.sound());
        let params = popped.queued_request(item).params;
        lemma_emit_turn_started(entered, item.peer_id, turn_id, params, item.supersedes());
    }
}

/// What is left of the permission requests when one is taken out.
pub proof fn lemma_without_permission(pending: Seq<PermissionView>, id: IdView)
    ensures
        forall|p: PermissionView| #[trigger]
            inbound::without_permission(pending, id).contains(p) ==> pending.contains(p) && p.id
                != id,
    decreases pending.len(),
{
    if pending.len() > 0 {
        let front = pending.drop_last();
        lemma_without_permission(front, id);
        let kept = inbound::without_permission(front, id);
        let all = inbound::without_permission(pending, id);
        assert forall|p: PermissionView| #[trigger] all.contains(p) implies pending.contains(p)
            && p.id != id by {
            let j = choose|j: int| 0 <= j < all.len() && all[j] == p;
            if j < kept.len() {
                assert(kept[j] == p);
                assert(kept.contains(p));
                assert(front.contains(p));
                let i = choose|i: int| 0 <= i < front.len() && front[i] == p;
                assert(pending[i] == p);
            } else {
                assert(pending[pending.len() - 1] == p);
            }
        }
    }
}

/// A request of the agent that is settled keeps a session consistent.
proof fn lemma_consume(session: SessionView, id: IdView)
    ensures
        session.consistent() ==> session.consume(id).consistent(),
        session.sound() ==> session.consume(id).sound(),
{
    lemma_without_permission(session.pending_permission_frames, id);
    let after = session.consume(id);
    if session.consistent() {
        assoc::lemma_store(session.agent_pending, id, AgentReqState::Consumed, id);
        assert forall|p: PermissionView| #[trigger]
            after.pending_permission_frames.contains(p) implies assoc::lookup(
            after.agent_pending,
            p.id,
        ) == Some(AgentReqState::InFlight) by {
            assert(session.pending_permission_frames.contains(p));
            assoc::lemma_store(session.agent_pending, id, AgentReqState::Consumed, p.id);
        }
    }
}

/// Settling several requests of the agent keeps a session consistent.
proof fn lemma_consume_all(session: SessionView, ids: Seq<IdView>)
    ensures
        session.consistent() ==> session.consume_all(ids).consistent(),
        session.sound() ==> session.consume_all(ids).sound(),
    decreases ids.len(),
{
    if ids.len() > 0 {
        lemma_consume_all(session, ids.drop_last());
        lemma_consume(session.consume_all(ids.drop_last()), ids.last());
    }
}

/// The sweep keeps a session consistent.
pub proof fn lemma_sweep(session: SessionView, reason: Seq<char>)
    ensures
        session.consistent() ==> session.sweep_stale_agent_pending(reason).consistent(),
{
    let stale = agent::in_flight(session.agent_pending);
    lemma_consume_all(session, stale);
    lemma_broadcast_all(session.consume_all(stale), session.settled_frames(stale, reason));
}

/// Telling the peers of the end of a turn keeps a session consistent, and
/// touches neither the counters nor the turn.
proof fn lemma_emit_turn_complete(
    session: SessionView,
    turn_id: AmuxTurnId,
    result: Option<JsonView>,
)
    ensures
        session.consistent() ==> session.emit_turn_complete(turn_id, result).consistent(),
{
    broadcast use lemma_broadcast;

}

/// The end of a turn leads to a sound session.
proof fn lemma_finish_turn(
    session: SessionView,
    queue_item_id: Option<Seq<char>>,
    result: Option<JsonView>,
)
    requires
        session.idle().consistent(),
        session.counters_left(),
    ensures
        session.finish_turn(queue_item_id, result).0.sound(),
{
    broadcast use lemma_broadcast;

    let idle = session.idle();
    let reason = agent::RESOLVED_BY_TURN_END@;
    lemma_sweep(idle, reason);
    agent::lemma_sweep_scope(idle, reason);
    let swept = idle.sweep_stale_agent_pending(reason);
    let told = match session.active_amux_turn_id {
        Some(turn_id) => {
            lemma_emit_turn_complete(swept, turn_id, result);
            let complete = swept.emit_turn_complete(turn_id, result);
            match queue_item_id {
                Some(id) => complete.broadcast(
                    json::json_text(
                        amux::queue_item_completed_frame(
                            session.session_id,
                            id,
                            turn_id,
                            turn::stop_reason_of(result),
                        ),
                    ),
                ),
                None => complete,
            }
        },
        None => swept,
    };
    lemma_submit(told);
}

/// What the session remembers keeps it sound.
proof fn lemma_remember(
    session: SessionView,
    handshake: Option<HandshakeView>,
    result: Option<JsonView>,
)
    requires
        session.sound(),
    ensures
        session.remember(handshake, result).sound(),
{
    if let (Some(HandshakeView::SessionLoad { loaded_session_id, replay_start_len }), Some(_)) = (
        handshake,
        result,
    ) {
        let bound = session.rebind_canonical_session(loaded_session_id);
        lemma_rebind_queue(session, loaded_session_id);
        assert(bound.sound());
        let named = bound.set_canonical_session_id(loaded_session_id);
        assert(named.sound());
    }
}

/// Rebinding the waiting prompts keeps the queue sound.
proof fn lemma_rebind_queue(session: SessionView, loaded: Seq<char>)
    requires
        queue_sound(session.queued_prompts, session.next_queue_item_id),
    ensures
        queue_sound(
            session.rebind_canonical_session(loaded).queued_prompts,
            session.next_queue_item_id,
        ),
{
    let before = session.queued_prompts;
    let after = session.rebind_canonical_session(loaded).queued_prompts;
    lemma_queue_count_same(before, after);
    assert forall|i: int| 0 <= i < after.len() implies numbered_before(
        #[trigger] after[i],
        session.next_queue_item_id,
    ) by {
        assert(numbered_before(before[i], session.next_queue_item_id));
    }
    assert forall|i: int, j: int|
        #![trigger after[i], after[j]]
        0 <= i < j < after.len() implies !(after[i].kind is HardSteer && after[j].kind is HardSteer)
        && (after[i].queue_item_id is Some ==> after[i].queue_item_id != after[j].queue_item_id) by {
        let (x, y) = (before[i], before[j]);
    }
}

/// The count goes by the kinds of the prompts alone.
proof fn lemma_queue_count_same(a: Seq<QueuedPromptView>, b: Seq<QueuedPromptView>)
    requires
        a.len() == b.len(),
        forall|i: int| 0 <= i < a.len() ==> (#[trigger] a[i]).kind == b[i].kind,
    ensures
        control::queue_count(a) == control::queue_count(b),
    decreases a.len(),
{
    if a.len() > 0 {
        lemma_queue_count_same(a.drop_last(), b.drop_last());
    }
}

/// A request that has its answer is forgotten.
proof fn lemma_settle(session: SessionView, mux_id: u64)
    requires
        session.sound(),
        assoc::holds(session.pending, mux_id),
    ensures
        ({
            let settled = SessionView {
                pending: assoc::erase(session.pending, mux_id),
                ..session
            };
            if session.active_turn_mux_id == Some(mux_id) {
                settled.idle().consistent()
            } else {
                settled.sound()
            }
        }),
{
    let settled = SessionView { pending: assoc::erase(session.pending, mux_id), ..session };
    assoc::lemma_erase(session.pending, mux_id, mux_id);
    assoc::lemma_index_of(session.pending, mux_id);
    let at = assoc::index_of(session.pending, mux_id);
    assert forall|i: int| 0 <= i < settled.pending.len() implies 1 <= (
    #[trigger] settled.pending[i]).0 < session.next_mux_id by {
        let from = session.pending[if i < at {
            i
        } else {
            i + 1
        }];
        assert(settled.pending[i] == from);
    }
    if let Some(active) = session.active_turn_mux_id {
        assoc::lemma_erase(session.pending, mux_id, active);
    }
}

/// What goes to one peer keeps a session sound.
proof fn lemma_deliver(
    session: SessionView,
    pending: PendingView,
    resp: ResponseView,
)
    requires
        session.sound(),
    ensures
        session.deliver_response(pending, resp).sound(),
{
}

/// A response of the agent.
proof fn lemma_route_agent_response(session: SessionView, resp: ResponseView)
    requires
        session.sound(),
        session.counters_left(),
    ensures
        session.route_agent_response(resp).0.sound(),
{
    if let Some(mux_id) = agent::answered(resp.id) {
        if let Some(pending) = assoc::lookup(session.pending, mux_id) {
            lemma_settle(session, mux_id);
            let settled = SessionView {
                pending: assoc::erase(session.pending, mux_id),
                ..session
            };
            if session.active_turn_mux_id == Some(mux_id) {
                lemma_finish_turn(settled, pending.queue_item_id, resp.result);
                let after = settled.finish_turn(pending.queue_item_id, resp.result).0;
                lemma_remember(after, pending.handshake, resp.result);
                lemma_deliver(
                    after.remember(pending.handshake, resp.result),
                    pending,
                    resp,
                );
            } else {
                lemma_remember(settled, pending.handshake, resp.result);
                lemma_deliver(
                    settled.remember(pending.handshake, resp.result),
                    pending,
                    resp,
                );
            }
        }
    }
}

/// A request of the agent.
proof fn lemma_route_agent_request(session: SessionView, req: RequestView, line: Seq<u8>)
    requires
        session.sound(),
    ensures
        session.route_agent_request(req, line).0.sound(),
{
    broadcast use {lemma_broadcast, lemma_fan_out};

    let entered = SessionView {
        agent_pending: assoc::store(session.agent_pending, req.id, AgentReqState::InFlight),
        ..session
    };
    assoc::lemma_store(session.agent_pending, req.id, AgentReqState::InFlight, req.id);
    assert forall|p: PermissionView| #[trigger]
        entered.pending_permission_frames.contains(p) implies assoc::lookup(
        entered.agent_pending,
        p.id,
    ) == Some(AgentReqState::InFlight) by {
        assoc::lemma_store(session.agent_pending, req.id, AgentReqState::InFlight, p.id);
    }
    assert(entered.sound());
    let opened = entered.broadcast(
        json::json_text(
            amux::agent_request_opened_frame(
                session.session_id,
                req.id.json(),
                req.method,
                req.params,
                session.active_amux_turn_id,
            ),
        ),
    );
    let waiting = PermissionView { id: req.id, frame: line };
    let left = inbound::without_permission(opened.pending_permission_frames, req.id);
    lemma_without_permission(opened.pending_permission_frames, req.id);
    let kept = SessionView { pending_permission_frames: left.push(waiting), ..opened };
    assert forall|p: PermissionView| #[trigger]
        kept.pending_permission_frames.contains(p) implies assoc::lookup(
        kept.agent_pending,
        p.id,
    ) == Some(AgentReqState::InFlight) by {
        let j = choose|j: int|
            0 <= j < kept.pending_permission_frames.len() && kept.pending_permission_frames[j] == p;
        if j < left.len() {
            assert(left[j] == p);
            assert(left.contains(p));
        }
    }
    assert(kept.sound());
}

/// A notification of the agent.
proof fn lemma_agent_notification(session: SessionView, notif: NotificationView, line: Seq<u8>)
    requires
        session.sound(),
    ensures
        session.handle_agent_notification(notif, line).0.sound(),
{
    broadcast use lemma_broadcast;

    if let Some(id) = inbound::cancel_target(notif.params) {
        lemma_consume(session, id);
    }
}

/// A line of the agent keeps a session sound.
proof fn lemma_agent_line(session: SessionView, line: Seq<u8>)
    requires
        session.sound(),
        session.counters_left(),
    ensures
        session.handle_agent_line(line).0.sound(),
{
    broadcast use lemma_broadcast;

    match IncomingView::read(line) {
        Err(_) => {},
        Ok(IncomingView::Notification(notif)) => {
            lemma_agent_notification(session, notif, line);
        },
        Ok(IncomingView::Response(resp)) => {
            lemma_route_agent_response(session, resp);
        },
        Ok(IncomingView::Request(req)) => {
            lemma_route_agent_request(session, req, line);
        },
    }
}

/// A request that goes to the agent. A prompt goes only while no turn is active.
proof fn lemma_forward_request(session: SessionView, peer_id: Seq<char>, req: RequestView)
    requires
        session.sound(),
        session.counters_left(),
        req.method == "session/prompt"@ ==> session.active_turn_mux_id is None,
    ensures
        session.forward_request(peer_id, req).0.sound(),
{
    let params = if req.method == "initialize"@ {
        inbound::sanitized(session.client_tool_policy, req.params)
    } else {
        req.params
    };
    let noted = if req.method == "initialize"@ {
        session
    } else {
        session.note_driving_subscriber(peer_id)
    };
    assert(noted.sound());
    let mux_id = noted.next_mux_id;
    let is_prompt = req.method == "session/prompt"@;
    let turn_id = AmuxTurnId(noted.next_amux_turn_id);
    let pending = PendingView {
        peer_id,
        original_id: req.id,
        handshake: noted.handshake_of(req.method, params),
        decorate_session_list: req.method == "session/list"@,
        deliver_response: true,
        queue_item_id: None,
    };
    lemma_take_mux_id(noted, pending);
    let entered = SessionView {
        next_mux_id: state::bump(mux_id),
        next_amux_turn_id: if is_prompt {
            state::bump(noted.next_amux_turn_id)
        } else {
            noted.next_amux_turn_id
        },
        pending: assoc::store(noted.pending, mux_id, pending),
        ..noted
    };
    if is_prompt {
        reveal_strlit("session/prompt");
        reveal_strlit("initialize");
        reveal_strlit("session/new");
        reveal_strlit("session/load");
        assert("session/prompt"@.len() == 14);
        assert("initialize"@.len() == 10 && "session/new"@.len() == 11 && "session/load"@.len()
            == 12);
        let turn = Some(turn_id);
        let outgoing = entered.outgoing_params(peer_id, mux_id, turn, params);
        let opened = SessionView {
            active_turn_mux_id: Some(mux_id),
            active_amux_turn_id: Some(turn_id),
            active_turn_session_id: match inbound::param_text(params, "sessionId"@) {
                Some(id) => Some(id),
                None => noted.canonical_session_id,
            },
            active_turn_prompt_text: inbound::param_prompt_text(params),
            ..entered
        };
        assert(opened.sound());
        lemma_emit_turn_started(opened, peer_id, turn_id, outgoing, None);
    } else {
        assert(entered.sound());
    }
}

/// A prompt that is queued.
proof fn lemma_queue_prompt(session: SessionView, peer_id: Seq<char>, req: RequestView)
    requires
        session.sound(),
        session.counters_left(),
    ensures
        session.handle_amux_queue_prompt_request(peer_id, req).0.sound(),
{
    if let Ok(control) = session.control_params(req.params, false) {
        if control::queue_count(session.queued_prompts) < MAX_MUX_QUEUE_PROMPTS {
            lemma_enqueue(session, peer_id, control);
            if session.active_turn_mux_id is None {
                lemma_submit(session.enqueue(peer_id, control));
            }
        }
    }
}

/// A prompt that is dropped from the queue.
proof fn lemma_unqueue_prompt(session: SessionView, peer_id: Seq<char>, req: RequestView)
    requires
        session.sound(),
    ensures
        session.handle_amux_unqueue_prompt_request(peer_id, req).sound(),
{
    broadcast use lemma_broadcast;

    if let Ok(queue_item_id) = control::unqueue_target(req.params) {
        let at = control::queue_position(session.queued_prompts, queue_item_id);
        lemma_queue_position(session.queued_prompts, queue_item_id);
        if at < session.queued_prompts.len() {
            lemma_queue_remove(session.queued_prompts, session.next_queue_item_id, at);
            let removed = SessionView {
                queued_prompts: session.queued_prompts.remove(at),
                ..session
            };
            assert(removed.sound());
        }
    }
}

/// Where a queue item stands.
pub proof fn lemma_queue_position(prompts: Seq<QueuedPromptView>, queue_item_id: Seq<char>)
    ensures
        ({
            let at = control::queue_position(prompts, queue_item_id);
            &&& 0 <= at <= prompts.len()
            &&& at < prompts.len() ==> prompts[at].queue_item_id == Some(queue_item_id)
            &&& forall|i: int|
                0 <= i < at ==> (#[trigger] prompts[i]).queue_item_id != Some(queue_item_id)
        }),
    decreases prompts.len(),
{
    if prompts.len() > 0 && prompts[0].queue_item_id != Some(queue_item_id) {
        let rest = prompts.drop_first();
        lemma_queue_position(rest, queue_item_id);
        assert forall|i: int| 0 <= i < control::queue_position(prompts, queue_item_id) implies (
        #[trigger] prompts[i]).queue_item_id != Some(queue_item_id) by {
            if i > 0 {
                assert(rest[i - 1] == prompts[i]);
            }
        }
    }
}

/// A steer.
proof fn lemma_steer(session: SessionView, peer_id: Seq<char>, req: RequestView)
    requires
        session.sound(),
        session.counters_left(),
    ensures
        session.handle_amux_steer_request(peer_id, req).0.sound(),
{
    broadcast use lemma_broadcast;

    if let Ok(control) = session.control_params(req.params, false) {
        match session.active_turn_mux_id {
            None => {
                let turn_id = AmuxTurnId(session.next_amux_turn_id);
                let announced = session.announce_steer(peer_id, "prompt"@, turn_id, control.text);
                let item = QueuedPromptView {
                    queue_item_id: None,
                    peer_id,
                    session_id: control.session_id,
                    prompt_text: control.text,
                    kind: QueuedPromptKind::Prompt,
                };
                lemma_push_front(announced, item);
                lemma_submit(announced.push_front(item));
            },
            Some(mux_id) => {
                if let (Some(turn_id), Some(_)) = (
                    session.active_amux_turn_id,
                    session.active_turn_session_id,
                ) {
                    if !control::steer_pending(session.queued_prompts) {
                        lemma_hard_steer(session, peer_id, control, mux_id, turn_id);
                    }
                }
            },
        }
    }
}

/// A steer of the active turn.
proof fn lemma_hard_steer(
    session: SessionView,
    peer_id: Seq<char>,
    control: ControlView,
    mux_id: u64,
    turn_id: AmuxTurnId,
)
    requires
        session.sound(),
        session.active_turn_mux_id is Some,
        !control::steer_pending(session.queued_prompts),
    ensures
        forall|id: IdView, active: Seq<char>|
            (#[trigger] session.hard_steer(peer_id, id, control, mux_id, turn_id, active)).0.sound(),
{
    broadcast use lemma_broadcast;

    let announced = session.announce_steer(peer_id, "hard"@, turn_id, control.text);
    let driver = match session.turn_owner(mux_id) {
        Some(owner) => owner,
        None => peer_id,
    };
    let told = announced.broadcast(
        json::json_text(
            amux::turn_cancelled_frame(
                session.session_id,
                turn_id,
                peer_id,
                driver,
                Some("hard_steer"@),
            ),
        ),
    );
    let item = QueuedPromptView {
        queue_item_id: None,
        peer_id,
        session_id: control.session_id,
        prompt_text: control::hard_steer_prompt(
            peer_id,
            turn_id,
            session.active_turn_prompt_text,
            control.text,
        ),
        kind: QueuedPromptKind::HardSteer { supersedes_turn_id: turn_id },
    };
    lemma_push_front(told, item);
}

/// A prompt that comes while a turn is active keeps a session sound.
proof fn lemma_reject_busy(session: SessionView, peer_id: Seq<char>, id: IdView, mux_id: u64)
    requires
        session.sound(),
    ensures
        session.reject_busy(peer_id, id, mux_id).sound(),
{
    broadcast use lemma_broadcast;

}

/// A request of a subscriber keeps a session sound.
#[verifier::spinoff_prover]
proof fn lemma_outbound_request(session: SessionView, peer_id: Seq<char>, req: RequestView)
    requires
        session.sound(),
        session.counters_left(),
    ensures
        session.translate_outbound_request(peer_id, req).0.sound(),
{
    if req.method == amux::METHOD_STEER_ACTIVE_TURN@ {
        lemma_steer(session, peer_id, req);
    } else if req.method == amux::METHOD_QUEUE_PROMPT@ {
        lemma_queue_prompt(session, peer_id, req);
    } else if req.method == amux::METHOD_UNQUEUE_PROMPT@ {
        lemma_unqueue_prompt(session, peer_id, req);
    } else if req.method == "session/prompt"@ && session.active_turn_mux_id is Some {
        lemma_reject_busy(session, peer_id, req.id, session.active_turn_mux_id->0);
    } else {
        lemma_forward_request(session, peer_id, req);
    }
}

/// A response of a subscriber keeps a session sound.
proof fn lemma_gate(session: SessionView, peer_id: Seq<char>, resp: ResponseView)
    requires
        session.sound(),
    ensures
        session.consume(resp.id).emit_agent_request_resolved(peer_id, resp).sound(),
{
    broadcast use lemma_broadcast;

    lemma_consume(session, resp.id);
}

/// A frame of a subscriber keeps a session sound.
proof fn lemma_inbound(session: SessionView, peer_id: Seq<char>, bytes: Seq<u8>)
    requires
        session.sound(),
        session.counters_left(),
    ensures
        session.handle_inbound(peer_id, bytes).0.sound(),
{
    broadcast use lemma_broadcast;

    match IncomingView::read(bytes) {
        Err(_) => {},
        Ok(IncomingView::Notification(_)) => {},
        Ok(IncomingView::Response(resp)) => {
            lemma_gate(session, peer_id, resp);
        },
        Ok(IncomingView::Request(req)) => {
            lemma_outbound_request(session, peer_id, req);
        },
    }
}

/// A peer that attaches keeps a session sound.
proof fn lemma_attach(session: SessionView, subscriber: SubscriberView)
    requires
        session.sound(),
    ensures
        session.attach(subscriber).0.sound(),
{
    broadcast use lemma_broadcast;

    let peer_id = subscriber.peer_id;
    let told = session.broadcast(
        json::json_text(
            amux::peer_joined_frame(
                session.session_id,
                peer_id,
                subscriber.peer_name,
                subscriber.role,
            ),
        ),
    );
    assoc::lemma_store(told.subscribers, peer_id, subscriber, peer_id);
    assoc::lemma_index_of(told.subscribers, peer_id);
    let joined = SessionView {
        subscribers: assoc::store(told.subscribers, peer_id, subscriber),
        ..told
    };
    assert(peers_sound(joined.subscribers));
    assert(joined.sound());
    assert(joined.publish_session_list_metadata().sound());
}

/// A peer that detaches keeps a session sound.
proof fn lemma_detach(session: SessionView, peer_id: Seq<char>)
    requires
        session.sound(),
    ensures
        session.detach(peer_id).0.sound(),
{
    broadcast use lemma_broadcast;

    if let Some(peer) = assoc::lookup(session.subscribers, peer_id) {
        assoc::lemma_erase(session.subscribers, peer_id, peer_id);
        assoc::lemma_index_of(session.subscribers, peer_id);
        let at = assoc::index_of(session.subscribers, peer_id);
        let erased = SessionView {
            subscribers: assoc::erase(session.subscribers, peer_id),
            ..session
        };
        assert forall|i: int| 0 <= i < erased.subscribers.len() implies (
        #[trigger] erased.subscribers[i]).0 == erased.subscribers[i].1.peer_id by {
            let from = session.subscribers[if i < at {
                i
            } else {
                i + 1
            }];
            assert(erased.subscribers[i] == from);
        }
        assert(erased.sound());
        let left = erased.broadcast(
            json::json_text(amux::peer_left_frame(session.session_id, peer_id)),
        );
        let told = match left.acp_session_id() {
            Some(acp_id) => left.broadcast(
                json::json_text(
                    session_update::client_disconnected_frame(acp_id, peer_id, peer.peer_name),
                ),
            ),
            None => left,
        };
        lemma_broadcast_all(told, session.orphan_frames(peer_id));
    }
}

/// A session with its first peer is sound.
pub proof fn law_start_is_sound(
    session_id: Seq<char>,
    replay_policy: ReplayTurns,
    meta_propagate: bool,
    client_tool_policy: ClientToolPolicy,
    agent_cwd: Seq<char>,
    index: IndexView,
    first: SubscriberView,
    clock: Seq<char>,
)
    requires
        index.sound(),
    ensures
        ActorView::start(
            session_id,
            replay_policy,
            meta_propagate,
            client_tool_policy,
            agent_cwd,
            index,
            first,
            clock,
        ).inner.sound(),
{
    let empty = SessionView {
        clock,
        ..SessionView::new(
            session_id,
            agent_cwd,
            replay_policy,
            meta_propagate,
            client_tool_policy,
            index,
        )
    };
    assert(empty.sound());
    lemma_attach(empty, first);
}

/// Whatever happens to a sound session leaves it sound, as long as its counters
/// last: whoever attaches, detaches or sends a frame, whatever the agent says,
/// and when the timer runs out.
pub proof fn law_step_stays_sound(actor: ActorView, msg: MsgView)
    requires
        actor.inner.sound(),
        actor.inner.counters_left(),
    ensures
        actor.step(msg).0.inner.sound(),
{
    match msg {
        MsgView::Attach { subscriber } => {
            lemma_attach(actor.inner, subscriber);
        },
        MsgView::Detach { peer_id } => {
            lemma_detach(actor.inner, peer_id);
        },
        MsgView::InboundFromSubscriber { peer_id, bytes } => {
            lemma_inbound(actor.inner, peer_id, bytes);
        },
        MsgView::AgentStdoutLine(line) => {
            lemma_agent_line(actor.inner, line);
        },
        _ => {},
    }
}

/// A channel that closes leaves a sound session sound.
pub proof fn law_closed_channel_stays_sound(session: SessionView, peer_id: Seq<char>)
    requires
        session.sound(),
    ensures
        session.outbound_closed(peer_id).sound(),
{
    if let Some(subscriber) = assoc::lookup(session.subscribers, peer_id) {
        assoc::lemma_index_of(session.subscribers, peer_id);
        assoc::lemma_store(
            session.subscribers,
            peer_id,
            SubscriberView { open: false, ..subscriber },
            peer_id,
        );
    }
}

/// A session ends sound, with no peers.
pub proof fn law_finish_stays_sound(actor: ActorView, reason: ExitReason)
    requires
        actor.inner.sound(),
    ensures
        actor.finish(reason).inner.sound(),
        actor.finish(reason).inner.subscribers.len() == 0,
{
}

} // verus!

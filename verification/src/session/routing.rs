//! How a request of a subscriber finds its answer: it is noted when it is
//! forwarded, it waits through whatever else happens, and the agent's answer
//! goes to the peer that asked, under the peer's own id.

use crate::assoc;
use crate::json;
use crate::json::JsonView;
use crate::multiplex::subscriber::{DeliveryView, OutMsgView};
use crate::protocol::amux;
use crate::protocol::jsonrpc::{ErrorView, IncomingView, RequestView, ResponseView};
use crate::protocol::session_update;
use crate::session::actor::{ActorView, MsgView};
use crate::session::agent;
use crate::session::attach;
use crate::session::inbound;
use crate::session::laws;
use crate::session::sound;
use crate::session::state;
use crate::session::state::{PendingView, SessionView};
use crate::session::turn;
use vstd::prelude::*;

verus! {

/// A request that is forwarded goes to the agent under a mux id of its own, by
/// which the session knows who asked and under which id. Where the session adds
/// no trace, the agent gets the parameters as they came; only `initialize` goes
/// without the client tools that are blocked.
pub proof fn law_forwarded_request_is_noted(
    session: SessionView,
    peer_id: Seq<char>,
    req: RequestView,
)
    requires
        session.sound(),
    ensures
        ({
            let (asked, write) = session.forward_request(peer_id, req);
            let mux_id = session.next_mux_id;
            &&& assoc::lookup(session.pending, mux_id) is None
            &&& assoc::lookup(asked.pending, mux_id) matches Some(pending) && {
                &&& pending.peer_id == peer_id
                &&& pending.original_id == req.id
                &&& pending.deliver_response
                &&& pending.decorate_session_list == (req.method == "session/list"@)
            }
            &&& exists|params: Option<JsonView>| #[trigger]
                sends(write, RequestView { id: state::wire_id(mux_id), method: req.method, params })
            &&& !session.meta_propagate ==> sends(
                write,
                RequestView {
                    id: state::wire_id(mux_id),
                    method: req.method,
                    params: if req.method == "initialize"@ {
                        inbound::sanitized(session.client_tool_policy, req.params)
                    } else {
                        req.params
                    },
                },
            )
        }),
{
    let params = if req.method == "initialize"@ {
        inbound::sanitized(session.client_tool_policy, req.params)
    } else {
        req.params
    };
    let noted = if req.method == "initialize"@ {
        session
    } else {
        session.note_driving_subscriber(peer_id)
    };
    let pending = PendingView {
        peer_id,
        original_id: req.id,
        handshake: noted.handshake_of(req.method, params),
        decorate_session_list: req.method == "session/list"@,
        deliver_response: true,
        queue_item_id: None,
    };
    let (asked, write) = session.forward_request(peer_id, req);
    laws::law_mux_ids_are_fresh(session);
    assoc::lemma_store(session.pending, session.next_mux_id, pending, session.next_mux_id);
    assert(asked.pending == assoc::store(session.pending, session.next_mux_id, pending));
    let turn_id = if req.method == "session/prompt"@ {
        Some(amux::AmuxTurnId(session.next_amux_turn_id))
    } else {
        None
    };
    let entered = SessionView {
        next_mux_id: state::bump(session.next_mux_id),
        next_amux_turn_id: if req.method == "session/prompt"@ {
            state::bump(session.next_amux_turn_id)
        } else {
            session.next_amux_turn_id
        },
        pending: asked.pending,
        ..noted
    };
    let outgoing = entered.outgoing_params(peer_id, session.next_mux_id, turn_id, params);
    assert(sends(
        write,
        RequestView {
            id: state::wire_id(session.next_mux_id),
            method: req.method,
            params: outgoing,
        },
    ));
}

/// Whether the agent is sent a request.
pub open spec fn sends(write: Option<Seq<u8>>, req: RequestView) -> bool {
    write == Some(json::json_text(req.json()))
}

/// A request that waits for the agent waits on, whatever happens, until the
/// agent answers it.
pub proof fn law_waiting_request_waits_on(actor: ActorView, msg: MsgView, mux_id: u64)
    requires
        actor.inner.sound(),
        assoc::holds(actor.inner.pending, mux_id),
        !answers(msg, mux_id),
    ensures
        assoc::lookup(actor.step(msg).0.inner.pending, mux_id) == assoc::lookup(
            actor.inner.pending,
            mux_id,
        ),
{
    let session = actor.inner;
    assoc::lemma_index_of(session.pending, mux_id);
    match msg {
        MsgView::Detach { peer_id } => {
            lemma_detach_adds_none(session, peer_id);
        },
        MsgView::InboundFromSubscriber { peer_id, bytes } => {
            lemma_inbound_adds_one(session, peer_id, bytes);
            lemma_added(session, session.handle_inbound(peer_id, bytes).0, mux_id);
        },
        MsgView::AgentStdoutLine(line) => {
            if let Ok(IncomingView::Response(resp)) = IncomingView::read(line) {
                lemma_response_leaves_waiting(session, resp, mux_id);
            }
        },
        _ => {},
    }
}

/// Whether an event is the agent's answer to a request.
pub open spec fn answers(msg: MsgView, mux_id: u64) -> bool {
    msg matches MsgView::AgentStdoutLine(line) && IncomingView::read(line) matches Ok(
        IncomingView::Response(resp),
    ) && agent::answered(resp.id) == Some(mux_id)
}

/// At most one request was added, under the next mux id.
spec fn adds_at_most_one(before: SessionView, after: SessionView) -> bool {
    after.pending == before.pending || exists|pending: PendingView|
        after.pending == #[trigger] assoc::store(before.pending, before.next_mux_id, pending)
}

proof fn lemma_added(before: SessionView, after: SessionView, mux_id: u64)
    requires
        adds_at_most_one(before, after),
        mux_id != before.next_mux_id,
    ensures
        assoc::lookup(after.pending, mux_id) == assoc::lookup(before.pending, mux_id),
{
    if after.pending != before.pending {
        let pending = choose|pending: PendingView|
            after.pending == #[trigger] assoc::store(before.pending, before.next_mux_id, pending);
        assoc::lemma_store(before.pending, before.next_mux_id, pending, mux_id);
    }
}

proof fn lemma_submit_adds_one(session: SessionView)
    ensures
        adds_at_most_one(session, session.submit_next_queued_prompt().0),
{
    if session.queued_prompts.len() > 0 {
        let item = session.queued_prompts[0];
        let pending = PendingView {
            peer_id: item.peer_id,
            original_id: state::wire_id(session.next_mux_id),
            handshake: None,
            decorate_session_list: false,
            deliver_response: false,
            queue_item_id: item.queue_item_id,
        };
        assert(session.submit_next_queued_prompt().0.pending == assoc::store(
            session.pending,
            session.next_mux_id,
            pending,
        ));
    }
}

proof fn lemma_steer_adds_one(session: SessionView, peer_id: Seq<char>, req: RequestView)
    ensures
        adds_at_most_one(session, session.handle_amux_steer_request(peer_id, req).0),
{
    if let Ok(control) = session.control_params(req.params, false) {
        if session.active_turn_mux_id is None {
            let turn_id = amux::AmuxTurnId(session.next_amux_turn_id);
            let steered = session.announce_steer(
                peer_id,
                "prompt"@,
                turn_id,
                control.text,
            ).push_front(
                state::QueuedPromptView {
                    queue_item_id: None,
                    peer_id,
                    session_id: control.session_id,
                    prompt_text: control.text,
                    kind: state::QueuedPromptKind::Prompt,
                },
            );
            lemma_submit_adds_one(steered);
            assert(adds_at_most_one(session, steered.submit_next_queued_prompt().0));
        }
    }
}

proof fn lemma_queue_adds_one(session: SessionView, peer_id: Seq<char>, req: RequestView)
    ensures
        adds_at_most_one(session, session.handle_amux_queue_prompt_request(peer_id, req).0),
{
    if let Ok(control) = session.control_params(req.params, false) {
        let queued = session.enqueue(peer_id, control);
        lemma_submit_adds_one(queued);
        assert(adds_at_most_one(session, queued.submit_next_queued_prompt().0));
    }
}

proof fn lemma_forward_adds_one(session: SessionView, peer_id: Seq<char>, req: RequestView)
    ensures
        adds_at_most_one(session, session.forward_request(peer_id, req).0),
{
    let params = if req.method == "initialize"@ {
        inbound::sanitized(session.client_tool_policy, req.params)
    } else {
        req.params
    };
    let noted = if req.method == "initialize"@ {
        session
    } else {
        session.note_driving_subscriber(peer_id)
    };
    let pending = PendingView {
        peer_id,
        original_id: req.id,
        handshake: noted.handshake_of(req.method, params),
        decorate_session_list: req.method == "session/list"@,
        deliver_response: true,
        queue_item_id: None,
    };
    assert(session.forward_request(peer_id, req).0.pending == assoc::store(
        session.pending,
        session.next_mux_id,
        pending,
    ));
}

proof fn lemma_inbound_adds_one(session: SessionView, peer_id: Seq<char>, bytes: Seq<u8>)
    ensures
        adds_at_most_one(session, session.handle_inbound(peer_id, bytes).0),
{
    if let Ok(IncomingView::Request(req)) = IncomingView::read(bytes) {
        lemma_steer_adds_one(session, peer_id, req);
        lemma_queue_adds_one(session, peer_id, req);
        lemma_forward_adds_one(session, peer_id, req);
    }
}

proof fn lemma_detach_adds_none(session: SessionView, peer_id: Seq<char>)
    ensures
        session.detach(peer_id).0.pending == session.pending,
{
    if let Some(peer) = assoc::lookup(session.subscribers, peer_id) {
        let left = SessionView {
            subscribers: assoc::erase(session.subscribers, peer_id),
            ..session
        }.broadcast(json::json_text(amux::peer_left_frame(session.session_id, peer_id)));
        let told = match left.acp_session_id() {
            Some(acp_id) => left.broadcast(
                json::json_text(
                    session_update::client_disconnected_frame(acp_id, peer_id, peer.peer_name),
                ),
            ),
            None => left,
        };
        attach::lemma_broadcast_all_scope(told, session.orphan_frames(peer_id));
    }
}

/// What is told at the end of a turn, before the next prompt is submitted.
spec fn told_of_end(
    session: SessionView,
    queue_item_id: Option<Seq<char>>,
    result: Option<JsonView>,
) -> SessionView {
    let swept = session.idle().sweep_stale_agent_pending(agent::RESOLVED_BY_TURN_END@);
    match session.active_amux_turn_id {
        Some(turn_id) => {
            let complete = swept.emit_turn_complete(turn_id, result);
            match queue_item_id {
                Some(id) => complete.broadcast(
                    json::json_text(
                        amux::queue_item_completed_frame(
                            session.session_id,
                            id,
                            turn_id,
                            turn::stop_reason_of(result),
                        ),
                    ),
                ),
                None => complete,
            }
        },
        None => swept,
    }
}

proof fn lemma_told_of_end(
    session: SessionView,
    queue_item_id: Option<Seq<char>>,
    result: Option<JsonView>,
)
    ensures
        ({
            let told = told_of_end(session, queue_item_id, result);
            &&& session.finish_turn(queue_item_id, result) == told.submit_next_queued_prompt()
            &&& told.pending == session.pending
            &&& told.next_mux_id == session.next_mux_id
        }),
{
    agent::lemma_sweep_scope(session.idle(), agent::RESOLVED_BY_TURN_END@);
}

/// Remembering an answer leaves the requests and the peers as they are.
proof fn lemma_remember_leaves(
    session: SessionView,
    handshake: Option<state::HandshakeView>,
    result: Option<JsonView>,
)
    ensures
        session.remember(handshake, result).pending == session.pending,
        session.remember(handshake, result).subscribers == session.subscribers,
        session.remember(handshake, result).outbox == session.outbox,
{
}

proof fn lemma_response_leaves_waiting(session: SessionView, resp: ResponseView, mux_id: u64)
    requires
        session.sound(),
        assoc::holds(session.pending, mux_id),
        agent::answered(resp.id) != Some(mux_id),
    ensures
        assoc::lookup(session.route_agent_response(resp).0.pending, mux_id) == assoc::lookup(
            session.pending,
            mux_id,
        ),
{
    assoc::lemma_index_of(session.pending, mux_id);
    if let Some(other) = agent::answered(resp.id) {
        if let Some(pending) = assoc::lookup(session.pending, other) {
            let settled = SessionView {
                pending: assoc::erase(session.pending, other),
                ..session
            };
            assoc::lemma_erase(session.pending, other, mux_id);
            let told = told_of_end(settled, pending.queue_item_id, resp.result);
            lemma_told_of_end(settled, pending.queue_item_id, resp.result);
            lemma_submit_adds_one(told);
            lemma_added(told, told.submit_next_queued_prompt().0, mux_id);
            let after = if session.active_turn_mux_id == Some(other) {
                told.submit_next_queued_prompt().0
            } else {
                settled
            };
            lemma_remember_leaves(after, pending.handshake, resp.result);
        }
    }
}

/// Whether a message to the peer would be taken, in a session whose peers have
/// ids of their own.
spec fn reached(session: SessionView, peer_id: Seq<char>) -> bool {
    assoc::distinct(session.subscribers) && session.reachable(peer_id)
}

/// Who is reached now is reached after a broadcast.
broadcast proof fn lemma_broadcast_reaches(
    session: SessionView,
    frame: Seq<u8>,
    peer_id: Seq<char>,
)
    ensures
        reached(session, peer_id) ==> #[trigger] reached(session.broadcast(frame), peer_id),
{
    if reached(session, peer_id) {
        laws::lemma_live_lookup(session.subscribers, peer_id);
        sound::lemma_live(session.subscribers);
    }
}

proof fn lemma_broadcast_all_reaches(
    session: SessionView,
    frames: Seq<Seq<u8>>,
    peer_id: Seq<char>,
)
    requires
        reached(session, peer_id),
    ensures
        reached(session.broadcast_all(frames), peer_id),
    decreases frames.len(),
{
    if frames.len() > 0 {
        lemma_broadcast_all_reaches(session, frames.drop_last(), peer_id);
        lemma_broadcast_reaches(
            session.broadcast_all(frames.drop_last()),
            frames.last(),
            peer_id,
        );
    }
}

proof fn lemma_end_reaches(
    session: SessionView,
    queue_item_id: Option<Seq<char>>,
    result: Option<JsonView>,
    peer_id: Seq<char>,
)
    requires
        reached(session, peer_id),
    ensures
        reached(told_of_end(session, queue_item_id, result), peer_id),
{
    let idle = session.idle();
    let stale = agent::in_flight(idle.agent_pending);
    agent::lemma_consume_all_scope(idle, stale);
    let consumed = idle.consume_all(stale);
    assert(reached(consumed, peer_id));
    let frames = idle.settled_frames(stale, agent::RESOLVED_BY_TURN_END@);
    lemma_broadcast_all_reaches(consumed, frames, peer_id);
    let swept = consumed.broadcast_all(frames);
    if let Some(turn_id) = session.active_amux_turn_id {
        let reason = turn::stop_reason_of(result);
        let first = json::json_text(amux::turn_complete_frame(swept.session_id, turn_id, reason));
        let told = swept.broadcast(first);
        lemma_broadcast_reaches(swept, first, peer_id);
        if let Some(acp_id) = told.acp_session_id() {
            lemma_broadcast_reaches(
                told,
                json::json_text(session_update::turn_complete_frame(acp_id, reason)),
                peer_id,
            );
        }
        let complete = swept.emit_turn_complete(turn_id, result);
        if let Some(id) = queue_item_id {
            lemma_broadcast_reaches(
                complete,
                json::json_text(
                    amux::queue_item_completed_frame(session.session_id, id, turn_id, reason),
                ),
                peer_id,
            );
        }
    }
}

proof fn lemma_submit_reaches(session: SessionView, peer_id: Seq<char>)
    requires
        reached(session, peer_id),
    ensures
        reached(session.submit_next_queued_prompt().0, peer_id),
{
    if session.queued_prompts.len() > 0 {
        let item = session.queued_prompts[0];
        let popped = SessionView {
            queued_prompts: session.queued_prompts.drop_first(),
            ..session
        }.note_driving_subscriber(item.peer_id);
        assert(reached(popped, peer_id));
        let turn_id = amux::AmuxTurnId(popped.next_amux_turn_id);
        let opened = SessionView {
            next_mux_id: state::bump(popped.next_mux_id),
            next_amux_turn_id: state::bump(popped.next_amux_turn_id),
            pending: assoc::store(
                popped.pending,
                popped.next_mux_id,
                PendingView {
                    peer_id: item.peer_id,
                    original_id: state::wire_id(popped.next_mux_id),
                    handshake: None,
                    decorate_session_list: false,
                    deliver_response: false,
                    queue_item_id: item.queue_item_id,
                },
            ),
            active_turn_mux_id: Some(popped.next_mux_id),
            active_amux_turn_id: Some(turn_id),
            active_turn_session_id: Some(item.session_id),
            active_turn_prompt_text: Some(item.prompt_text),
            ..popped
        };
        assert(reached(opened, peer_id));
        let params = popped.queued_request(item).params;
        lemma_start_reaches(opened, item.peer_id, turn_id, params, item.supersedes(), peer_id);
        if let Some(id) = item.queue_item_id {
            lemma_broadcast_reaches(
                opened.emit_turn_started(item.peer_id, turn_id, params, item.supersedes()),
                json::json_text(
                    amux::queue_item_submitted_frame(popped.session_id, id, turn_id),
                ),
                peer_id,
            );
        }
    }
}

proof fn lemma_start_reaches(
    session: SessionView,
    driver: Seq<char>,
    turn_id: amux::AmuxTurnId,
    params: Option<JsonView>,
    supersedes: Option<amux::AmuxTurnId>,
    peer_id: Seq<char>,
)
    requires
        reached(session, peer_id),
    ensures
        reached(session.emit_turn_started(driver, turn_id, params, supersedes), peer_id),
{
    broadcast use lemma_broadcast_reaches;

}

/// The answer that a peer gets: the agent's result or error under the peer's own
/// id. A list of sessions also says what is known of those that run.
pub open spec fn home(session: SessionView, pending: PendingView, resp: ResponseView) -> DeliveryView {
    DeliveryView {
        peer_id: pending.peer_id,
        message: OutMsgView::Frame(
            json::json_text(
                ResponseView {
                    id: pending.original_id,
                    result: match resp.result {
                        Some(result) => if pending.decorate_session_list {
                            Some(session.index.decorated_list(result))
                        } else {
                            Some(result)
                        },
                        None => None,
                    },
                    error: resp.error,
                }.json(),
            ),
        ),
    }
}

/// An answer comes home: when the agent answers a request that waits, the peer
/// that asked gets the answer, with the agent's result or error under the peer's
/// own id, and after everything else that the answer leads to. Where the request
/// was not the active turn, that is all that anybody is sent. A second answer to
/// the same request is dropped.
pub proof fn law_answer_comes_home(
    session: SessionView,
    mux_id: u64,
    result: Option<JsonView>,
    error: Option<ErrorView>,
)
    requires
        session.sound(),
        mux_id <= i64::MAX,
        assoc::lookup(session.pending, mux_id) matches Some(pending) && pending.deliver_response
            && session.reachable(pending.peer_id),
    ensures
        ({
            let pending = assoc::lookup(session.pending, mux_id)->0;
            let resp = ResponseView { id: state::wire_id(mux_id), result, error };
            let (answered, write) = session.route_agent_response(resp);
            let answer = home(answered, pending, resp);
            &&& answered.outbox.len() > 0
            &&& answered.outbox.last() == answer
            &&& session.active_turn_mux_id != Some(mux_id) ==> write is None && answered.outbox
                == session.outbox.push(answer)
            &&& answered.route_agent_response(resp) == (answered, None::<Seq<u8>>)
        }),
{
    let pending = assoc::lookup(session.pending, mux_id)->0;
    let resp = ResponseView { id: state::wire_id(mux_id), result, error };
    assert(agent::answered(resp.id) == Some(mux_id));
    assoc::lemma_index_of(session.pending, mux_id);
    assoc::lemma_erase(session.pending, mux_id, mux_id);
    let settled = SessionView { pending: assoc::erase(session.pending, mux_id), ..session };
    let told = told_of_end(settled, pending.queue_item_id, result);
    assert(reached(settled, pending.peer_id));
    lemma_told_of_end(settled, pending.queue_item_id, result);
    lemma_end_reaches(settled, pending.queue_item_id, result, pending.peer_id);
    lemma_submit_reaches(told, pending.peer_id);
    lemma_submit_adds_one(told);
    lemma_added(told, told.submit_next_queued_prompt().0, mux_id);
    let after = if session.active_turn_mux_id == Some(mux_id) {
        told.submit_next_queued_prompt().0
    } else {
        settled
    };
    lemma_remember_leaves(after, pending.handshake, result);
    let remembered = after.remember(pending.handshake, result);
    assert(remembered.reachable(pending.peer_id));
    assert(session.route_agent_response(resp).0 == remembered.deliver_response(pending, resp));
}

} // verus!

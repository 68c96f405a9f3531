//! What a session promises across several events.

use crate::assoc;
use crate::cli::ClientToolMode;
use crate::json;
use crate::json::JsonView;
use crate::multiplex::subscriber::{DeliveryView, OutMsgView, SubscriberView};
use crate::protocol::amux;
use crate::protocol::attach::{METHOD_ATTACH, METHOD_DETACH};
use crate::protocol::jsonrpc::{
    ErrorView, IdView, IncomingView, NotificationView, RequestView, ResponseView,
};
use crate::protocol::session_update;
use crate::session::actor::{ActorView, ExitReason, MsgView, TtlTimer};
use crate::session::agent;
use crate::session::attach;
use crate::session::control;
use crate::session::inbound;
use crate::session::load;
use crate::session::sound;
use crate::session::state;
use crate::session::state::{
    AgentReqState, AttachError, HandshakeView, PendingView, QueuedPromptView, SessionView,
    CLIENT_TOOL_BLOCKED_ERROR_CODE, SESSION_BUSY_ERROR_CODE,
};
use crate::session::turn;
use vstd::prelude::*;

verus! {

/// The agent sees one reply per request: the first reply of a subscriber to a
/// request that is in flight is passed on as it came, and every later one, from
/// whomever, is dropped and changes nothing.
pub proof fn law_first_reply_wins(
    session: SessionView,
    first: (Seq<char>, ResponseView, Seq<u8>),
    later: (Seq<char>, ResponseView, Seq<u8>),
)
    requires
        assoc::lookup(session.agent_pending, first.1.id) == Some(AgentReqState::InFlight),
        later.1.id == first.1.id,
    ensures
        ({
            let (after, write) = session.gate_subscriber_response(first.0, first.1, first.2);
            &&& write == Some(first.2)
            &&& after.gate_subscriber_response(later.0, later.1, later.2) == (
                after,
                None::<Seq<u8>>,
            )
        }),
{
    assoc::lemma_store(
        session.agent_pending,
        first.1.id,
        AgentReqState::Consumed,
        first.1.id,
    );
}

/// What settling several requests leaves of each.
proof fn lemma_consume_all(session: SessionView, ids: Seq<IdView>, id: IdView)
    ensures
        assoc::lookup(session.consume_all(ids).agent_pending, id) == if ids.contains(id) {
            Some(AgentReqState::Consumed)
        } else {
            assoc::lookup(session.agent_pending, id)
        },
    decreases ids.len(),
{
    if ids.len() > 0 {
        let front = ids.drop_last();
        lemma_consume_all(session, front, id);
        assoc::lemma_store(
            session.consume_all(front).agent_pending,
            ids.last(),
            AgentReqState::Consumed,
            id,
        );
        assert(ids =~= front.push(ids.last()));
        assert(ids.contains(id) <==> front.contains(id) || id == ids.last()) by {
            if ids.contains(id) {
                let i = choose|i: int| 0 <= i < ids.len() && ids[i] == id;
                if i < front.len() {
                    assert(front[i] == id);
                }
            }
            if front.contains(id) {
                let i = choose|i: int| 0 <= i < front.len() && front[i] == id;
                assert(ids[i] == id);
            }
            assert(ids[ids.len() - 1] == ids.last());
        }
    }
}

/// The requests that are in flight are the ones that the table says are.
pub proof fn lemma_in_flight(agent_pending: Seq<(IdView, AgentReqState)>, id: IdView)
    requires
        assoc::distinct(agent_pending),
    ensures
        agent::in_flight(agent_pending).contains(id) <==> assoc::lookup(agent_pending, id) == Some(
            AgentReqState::InFlight,
        ),
    decreases agent_pending.len(),
{
    let ids = agent::in_flight(agent_pending);
    if agent_pending.len() > 0 {
        let front = agent_pending.drop_last();
        let last = agent_pending.last();
        lemma_in_flight(front, id);
        assoc::lemma_index_of(agent_pending, id);
        assoc::lemma_index_of(front, id);
        let kept = agent::in_flight(front);
        if last.0 == id {
            assoc::lemma_index_is(front, id, front.len() as int);
            assoc::lemma_index_is(agent_pending, id, front.len() as int);
            if last.1 == AgentReqState::InFlight {
                assert(ids[kept.len() as int] == id);
            }
        } else {
            if assoc::holds(front, id) {
                assoc::lemma_index_is(agent_pending, id, assoc::index_of(front, id));
            } else {
                assert forall|j: int| 0 <= j < agent_pending.len() implies agent_pending[j].0
                    != id by {
                    if j < front.len() {
                        assert(front[j] == agent_pending[j]);
                    }
                }
                assoc::lemma_index_is(agent_pending, id, agent_pending.len() as int);
            }
            if last.1 == AgentReqState::InFlight {
                if kept.contains(id) {
                    let i = choose|i: int| 0 <= i < kept.len() && kept[i] == id;
                    assert(ids[i] == id);
                }
                if ids.contains(id) {
                    let i = choose|i: int| 0 <= i < ids.len() && ids[i] == id;
                    assert(i < kept.len());
                    assert(kept[i] == id);
                }
            }
        }
    } else {
        assoc::lemma_index_is(agent_pending, id, 0);
    }
}

/// When a turn is over, nothing of the agent waits any more: the sweep settles
/// every request that was in flight, and no permission is left to ask again.
pub proof fn law_sweep_settles_all(session: SessionView, reason: Seq<char>)
    requires
        session.consistent(),
    ensures
        forall|id: IdView|
            #[trigger] assoc::lookup(
                session.sweep_stale_agent_pending(reason).agent_pending,
                id,
            ) != Some(AgentReqState::InFlight),
        session.sweep_stale_agent_pending(reason).pending_permission_frames.len() == 0,
{
    let stale = agent::in_flight(session.agent_pending);
    let consumed = session.consume_all(stale);
    let after = session.sweep_stale_agent_pending(reason);
    attach::lemma_broadcast_all_scope(consumed, session.settled_frames(stale, reason));
    assert(after.agent_pending == consumed.agent_pending);
    assert forall|id: IdView|
        #[trigger] assoc::lookup(after.agent_pending, id) != Some(AgentReqState::InFlight) by {
        lemma_consume_all(session, stale, id);
        lemma_in_flight(session.agent_pending, id);
    }
    sound::lemma_sweep(session, reason);
    if after.pending_permission_frames.len() > 0 {
        let p = after.pending_permission_frames[0];
        assert(after.pending_permission_frames.contains(p));
        assert(assoc::lookup(after.agent_pending, p.id) == Some(AgentReqState::InFlight));
    }
}

/// A client tool that the policy blocks is refused on the spot, under the id and
/// the name of the request: no peer hears of it and nothing is recorded.
pub proof fn law_blocked_tools_reach_nobody(session: SessionView, req: RequestView, line: Seq<u8>)
    requires
        session.client_tool_policy.mode_of(req.method) == Some(ClientToolMode::Block),
    ensures
        session.route_agent_request(req, line).0 == session,
        session.route_agent_request(req, line).1 == Some(
            json::json_text(agent::blocked_response(req.id, req.method).json()),
        ),
        agent::blocked_response(req.id, req.method).id == req.id,
        agent::blocked_response(req.id, req.method).error matches Some(error) && error.code
            == CLIENT_TOOL_BLOCKED_ERROR_CODE,
{
}

/// No request that waits for the agent is overwritten: the mux id that the next
/// one gets stands for nothing else.
pub proof fn law_mux_ids_are_fresh(session: SessionView)
    requires
        session.requests_sound(),
    ensures
        !assoc::holds(session.pending, session.next_mux_id),
        forall|mux_id: u64|
            assoc::holds(session.pending, mux_id) && session.next_mux_id <= i64::MAX
                ==> #[trigger] state::wire_id(mux_id) != state::wire_id(session.next_mux_id),
{
    assoc::lemma_index_of(session.pending, session.next_mux_id);
    assert forall|mux_id: u64|
        assoc::holds(session.pending, mux_id) && session.next_mux_id
            <= i64::MAX implies #[trigger] state::wire_id(mux_id) != state::wire_id(
        session.next_mux_id,
    ) by {
        assoc::lemma_index_of(session.pending, mux_id);
    }
}

/// A subscriber cancels its own requests only: what goes to the agent names a
/// request that this very peer sent under the id it gave, by the id that the
/// agent knows it by; where there is none, nothing goes to the agent.
pub proof fn law_cancel_only_own(
    session: SessionView,
    peer_id: Seq<char>,
    notif: NotificationView,
)
    ensures
        match session.handle_subscriber_cancel(peer_id, notif) {
            Some(frame) => exists|i: int|
                0 <= i < session.pending.len() && (#[trigger] session.pending[i]).1.peer_id
                    == peer_id && inbound::cancel_target(notif.params) == Some(
                    session.pending[i].1.original_id,
                ) && frame == json::json_text(
                    inbound::cancel_request_frame(state::wire_id(session.pending[i].0)),
                ),
            None => match inbound::cancel_target(notif.params) {
                Some(id) => forall|i: int|
                    0 <= i < session.pending.len() ==> !((#[trigger] session.pending[i]).1.peer_id
                        == peer_id && session.pending[i].1.original_id == id),
                None => true,
            },
        },
{
    if let Some(id) = inbound::cancel_target(notif.params) {
        lemma_sent_by(session.pending, peer_id, id);
    }
}

/// Where a peer's request stands.
proof fn lemma_sent_by(pending: Seq<(u64, PendingView)>, peer_id: Seq<char>, id: IdView)
    ensures
        match inbound::sent_by(pending, peer_id, id) {
            Some(mux_id) => exists|i: int|
                0 <= i < pending.len() && (#[trigger] pending[i]).0 == mux_id
                    && pending[i].1.peer_id == peer_id && pending[i].1.original_id == id,
            None => forall|i: int|
                0 <= i < pending.len() ==> !((#[trigger] pending[i]).1.peer_id == peer_id
                    && pending[i].1.original_id == id),
        },
    decreases pending.len(),
{
    if pending.len() > 0 {
        let rest = pending.drop_first();
        lemma_sent_by(rest, peer_id, id);
        if !(pending[0].1.peer_id == peer_id && pending[0].1.original_id == id) {
            match inbound::sent_by(rest, peer_id, id) {
                Some(mux_id) => {
                    let i = choose|i: int|
                        0 <= i < rest.len() && (#[trigger] rest[i]).0 == mux_id
                            && rest[i].1.peer_id == peer_id && rest[i].1.original_id == id;
                    assert(pending[i + 1] == rest[i]);
                },
                None => {
                    assert forall|i: int| 0 <= i < pending.len() implies !((
                    #[trigger] pending[i]).1.peer_id == peer_id && pending[i].1.original_id
                        == id) by {
                        if i > 0 {
                            assert(rest[i - 1] == pending[i]);
                        }
                    }
                },
            }
        } else {
            assert(pending[0].0 == inbound::sent_by(pending, peer_id, id)->Some_0);
        }
    }
}

/// What the agent has a reply to stays answered, whatever a subscriber sends.
pub proof fn law_subscribers_reopen_nothing(
    session: SessionView,
    peer_id: Seq<char>,
    bytes: Seq<u8>,
    id: IdView,
)
    requires
        assoc::lookup(session.agent_pending, id) == Some(AgentReqState::Consumed),
    ensures
        assoc::lookup(session.handle_inbound(peer_id, bytes).0.agent_pending, id) == Some(
            AgentReqState::Consumed,
        ),
{
    match IncomingView::read(bytes) {
        Ok(IncomingView::Request(req)) => {
            lemma_requests_leave_agent(session, peer_id, req);
        },
        Ok(IncomingView::Response(resp)) => {
            assoc::lemma_store(session.agent_pending, resp.id, AgentReqState::Consumed, id);
        },
        _ => {},
    }
}

/// Requests of subscribers touch nothing of what the agent waits for.
proof fn lemma_requests_leave_agent(session: SessionView, peer_id: Seq<char>, req: RequestView)
    ensures
        session.translate_outbound_request(peer_id, req).0.agent_pending == session.agent_pending,
{
    lemma_steer_leaves_agent(session, peer_id, req);
    lemma_queue_leaves_agent(session, peer_id, req);
}

proof fn lemma_steer_leaves_agent(session: SessionView, peer_id: Seq<char>, req: RequestView)
    ensures
        session.handle_amux_steer_request(peer_id, req).0.agent_pending == session.agent_pending,
{
}

proof fn lemma_queue_leaves_agent(session: SessionView, peer_id: Seq<char>, req: RequestView)
    ensures
        session.handle_amux_queue_prompt_request(peer_id, req).0.agent_pending
            == session.agent_pending,
{
}

/// What the agent has a reply to stays answered, whatever the agent says, until
/// it makes another request under the same id.
pub proof fn law_agent_reopens_only_by_asking(session: SessionView, line: Seq<u8>, id: IdView)
    requires
        assoc::lookup(session.agent_pending, id) == Some(AgentReqState::Consumed),
        !(IncomingView::read(line) matches Ok(IncomingView::Request(req)) && req.id == id),
    ensures
        assoc::lookup(session.handle_agent_line(line).0.agent_pending, id) == Some(
            AgentReqState::Consumed,
        ),
{
    match IncomingView::read(line) {
        Ok(IncomingView::Request(req)) => {
            assoc::lemma_store(session.agent_pending, req.id, AgentReqState::InFlight, id);
        },
        Ok(IncomingView::Notification(notif)) => {
            if let Some(target) = inbound::cancel_target(notif.params) {
                assoc::lemma_store(session.agent_pending, target, AgentReqState::Consumed, id);
            }
        },
        Ok(IncomingView::Response(resp)) => {
            lemma_response_keeps_answered(session, resp, id);
        },
        Err(_) => {},
    }
}

proof fn lemma_response_keeps_answered(session: SessionView, resp: ResponseView, id: IdView)
    requires
        assoc::lookup(session.agent_pending, id) == Some(AgentReqState::Consumed),
    ensures
        assoc::lookup(session.route_agent_response(resp).0.agent_pending, id) == Some(
            AgentReqState::Consumed,
        ),
{
    if let Some(mux_id) = agent::answered(resp.id) {
        if let Some(pending) = assoc::lookup(session.pending, mux_id) {
            let settled = SessionView {
                pending: assoc::erase(session.pending, mux_id),
                ..session
            };
            let idle = settled.idle();
            let stale = agent::in_flight(idle.agent_pending);
            lemma_consume_all(idle, stale, id);
            attach::lemma_broadcast_all_scope(
                idle.consume_all(stale),
                idle.settled_frames(stale, agent::RESOLVED_BY_TURN_END@),
            );
            lemma_finish_leaves_agent(settled, pending.queue_item_id, resp.result);
            let after = if session.active_turn_mux_id == Some(mux_id) {
                settled.finish_turn(pending.queue_item_id, resp.result).0
            } else {
                settled
            };
            assert(assoc::lookup(after.agent_pending, id) == Some(AgentReqState::Consumed));
            lemma_remember_leaves_agent(after, pending.handshake, resp.result);
            assert(session.route_agent_response(resp).0 == after.remember(
                pending.handshake,
                resp.result,
            ).deliver_response(pending, resp));
        }
    }
}

proof fn lemma_remember_leaves_agent(
    session: SessionView,
    handshake: Option<HandshakeView>,
    result: Option<JsonView>,
)
    ensures
        session.remember(handshake, result).agent_pending == session.agent_pending,
{
}

proof fn lemma_finish_leaves_agent(
    session: SessionView,
    queue_item_id: Option<Seq<char>>,
    result: Option<JsonView>,
)
    ensures
        session.finish_turn(queue_item_id, result).0.agent_pending
            == session.idle().sweep_stale_agent_pending(agent::RESOLVED_BY_TURN_END@).agent_pending,
{
}

/// Of the reachable peers, each is found under its id.
pub proof fn lemma_live_lookup(subscribers: Seq<(Seq<char>, SubscriberView)>, peer_id: Seq<char>)
    requires
        assoc::distinct(subscribers),
    ensures
        assoc::lookup(state::live(subscribers), peer_id) == match assoc::lookup(
            subscribers,
            peer_id,
        ) {
            Some(subscriber) => if subscriber.open {
                Some(subscriber)
            } else {
                None
            },
            None => None,
        },
{
    let live = state::live(subscribers);
    sound::lemma_live(subscribers);
    assoc::lemma_index_of(subscribers, peer_id);
    assoc::lemma_index_of(live, peer_id);
    let at = assoc::index_of(subscribers, peer_id);
    let found = assoc::index_of(live, peer_id);
    if assoc::holds(live, peer_id) {
        assert(live.contains(live[found]));
        assert(subscribers.contains(live[found]));
        let i = choose|i: int| 0 <= i < subscribers.len() && subscribers[i] == live[found];
        assert(i == at);
    }
    if assoc::holds(subscribers, peer_id) && subscribers[at].1.open {
        assert(subscribers.contains(subscribers[at]));
        assert(live.contains(subscribers[at]));
        let j = choose|j: int| 0 <= j < live.len() && live[j] == subscribers[at];
        assert(j == found);
    }
}

/// Prompts are told apart from the other methods that the mux knows.
proof fn lemma_prompt_method()
    ensures
        "session/prompt"@ != METHOD_ATTACH@,
        "session/prompt"@ != METHOD_DETACH@,
        "session/prompt"@ != "initialize"@,
        "session/prompt"@ != "session/new"@,
        "session/prompt"@ != amux::METHOD_STEER_ACTIVE_TURN@,
        "session/prompt"@ != amux::METHOD_QUEUE_PROMPT@,
        "session/prompt"@ != amux::METHOD_UNQUEUE_PROMPT@,
{
    reveal_strlit("session/prompt");
    reveal_strlit("session/attach");
    reveal_strlit("session/detach");
    reveal_strlit("initialize");
    reveal_strlit("session/new");
    reveal_strlit("amux/steer_active_turn");
    reveal_strlit("amux/queue_prompt");
    reveal_strlit("amux/unqueue_prompt");
    assert("session/prompt"@[8] == 'p' && "session/attach"@[8] == 'a' && "session/detach"@[8]
        == 'd');
    assert("session/prompt"@.len() == 14 && "initialize"@.len() == 10 && "session/new"@.len() == 11);
    assert("session/prompt"@[0] == 's' && "amux/steer_active_turn"@[0] == 'a'
        && "amux/queue_prompt"@[0] == 'a' && "amux/unqueue_prompt"@[0] == 'a');
}

/// One turn at a time: a prompt that comes while a turn is active does not reach
/// the agent, and nothing of the turn, the queue, the requests or the driver
/// changes. The peer that sent it is told that the session is busy.
pub proof fn law_one_turn_at_a_time(session: SessionView, peer_id: Seq<char>, req: RequestView)
    requires
        session.sound(),
        session.active_turn_mux_id is Some,
        req.method == "session/prompt"@,
    ensures
        ({
            let (after, write) = session.translate_outbound_request(peer_id, req);
            &&& write is None
            &&& after == (SessionView {
                replay_log: after.replay_log,
                next_replay_seq: after.next_replay_seq,
                subscribers: after.subscribers,
                outbox: after.outbox,
                ..session
            })
            &&& session.reachable(peer_id) ==> after.outbox.last() == (DeliveryView {
                peer_id,
                message: OutMsgView::Frame(
                    json::json_text(
                        ResponseView {
                            id: req.id,
                            result: None,
                            error: Some(
                                ErrorView {
                                    code: SESSION_BUSY_ERROR_CODE,
                                    message: "session busy: another turn is in flight"@,
                                    data: None,
                                },
                            ),
                        }.json(),
                    ),
                ),
            })
        }),
{
    lemma_prompt_method();
    lemma_live_lookup(session.subscribers, peer_id);
}

/// First come, first served: when the active turn has its answer, the agent gets
/// the first waiting prompt, on behalf of the peer that it came from, and the
/// others move up.
pub proof fn law_queue_is_first_come_first_served(
    session: SessionView,
    result: Option<JsonView>,
    error: Option<ErrorView>,
)
    requires
        session.sound(),
        session.counters_left(),
        session.next_mux_id <= i64::MAX,
        session.active_turn_mux_id is Some,
        session.queued_prompts.len() > 0,
    ensures
        ({
            let first = session.queued_prompts[0];
            let id = state::wire_id(session.active_turn_mux_id->0);
            let (after, write) = session.route_agent_response(ResponseView { id, result, error });
            &&& write is Some
            &&& !session.meta_propagate ==> write == Some(
                json::json_text(
                    RequestView {
                        id: state::wire_id(session.next_mux_id),
                        method: "session/prompt"@,
                        params: Some(turn::queued_params(first.session_id, first.prompt_text)),
                    }.json(),
                ),
            )
            &&& after.queued_prompts == session.queued_prompts.drop_first()
            &&& after.active_turn_mux_id == Some(session.next_mux_id)
            &&& after.active_turn_session_id == Some(first.session_id)
            &&& after.active_turn_prompt_text == Some(first.prompt_text)
            &&& after.turn_owner(session.next_mux_id) == Some(first.peer_id)
        }),
{
    let mux_id = session.active_turn_mux_id->0;
    let first = session.queued_prompts[0];
    let resp = ResponseView { id: state::wire_id(mux_id), result, error };
    assoc::lemma_index_of(session.pending, mux_id);
    assert(agent::answered(resp.id) == Some(mux_id));
    let pending = assoc::lookup(session.pending, mux_id)->Some_0;
    let settled = SessionView { pending: assoc::erase(session.pending, mux_id), ..session };
    let idle = settled.idle();
    agent::lemma_sweep_scope(idle, agent::RESOLVED_BY_TURN_END@);
    let told = lemma_finish_submits(settled, pending.queue_item_id, result);
    lemma_submit_first(told);
}

/// The end of a turn submits from a session that has the same queue and
/// requests, and no turn.
proof fn lemma_finish_submits(
    session: SessionView,
    queue_item_id: Option<Seq<char>>,
    result: Option<JsonView>,
) -> (told: SessionView)
    ensures
        session.finish_turn(queue_item_id, result) == told.submit_next_queued_prompt(),
        told.queued_prompts == session.queued_prompts,
        told.pending == session.pending,
        told.next_mux_id == session.next_mux_id,
        told.next_amux_turn_id == session.next_amux_turn_id,
        told.meta_propagate == session.meta_propagate,
{
    let swept = session.idle().sweep_stale_agent_pending(agent::RESOLVED_BY_TURN_END@);
    agent::lemma_sweep_scope(session.idle(), agent::RESOLVED_BY_TURN_END@);
    match session.active_amux_turn_id {
        Some(turn_id) => {
            let complete = swept.emit_turn_complete(turn_id, result);
            match queue_item_id {
                Some(id) => complete.broadcast(
                    json::json_text(
                        amux::queue_item_completed_frame(
                            session.session_id,
                            id,
                            turn_id,
                            turn::stop_reason_of(result),
                        ),
                    ),
                ),
                None => complete,
            }
        },
        None => swept,
    }
}

/// What submitting the first waiting prompt does.
proof fn lemma_submit_first(session: SessionView)
    requires
        session.queued_prompts.len() > 0,
    ensures
        ({
            let first = session.queued_prompts[0];
            let (after, write) = session.submit_next_queued_prompt();
            &&& write is Some
            &&& !session.meta_propagate ==> write == Some(
                json::json_text(
                    RequestView {
                        id: state::wire_id(session.next_mux_id),
                        method: "session/prompt"@,
                        params: Some(turn::queued_params(first.session_id, first.prompt_text)),
                    }.json(),
                ),
            )
            &&& after.queued_prompts == session.queued_prompts.drop_first()
            &&& after.active_turn_mux_id == Some(session.next_mux_id)
            &&& after.active_turn_session_id == Some(first.session_id)
            &&& after.active_turn_prompt_text == Some(first.prompt_text)
            &&& after.turn_owner(session.next_mux_id) == Some(first.peer_id)
        }),
{
    let first = session.queued_prompts[0];
    let popped = SessionView {
        queued_prompts: session.queued_prompts.drop_first(),
        ..session
    }.note_driving_subscriber(first.peer_id);
    let pending = PendingView {
        peer_id: first.peer_id,
        original_id: state::wire_id(popped.next_mux_id),
        handshake: None,
        decorate_session_list: false,
        deliver_response: false,
        queue_item_id: first.queue_item_id,
    };
    assoc::lemma_store(session.pending, session.next_mux_id, pending, session.next_mux_id);
}

/// A steer goes before everything that waits: it is the next prompt that the
/// agent gets, and it names the turn that it takes the place of. Meanwhile no
/// second one is accepted.
pub proof fn law_steer_goes_first(session: SessionView, peer_id: Seq<char>, req: RequestView)
    requires
        session.sound(),
        session.active_turn_mux_id is Some,
        session.active_turn_session_id is Some,
        !control::steer_pending(session.queued_prompts),
        session.control_params(req.params, false) is Ok,
    ensures
        ({
            let (after, write) = session.handle_amux_steer_request(peer_id, req);
            let turn_id = session.active_amux_turn_id->Some_0;
            &&& write == Some(
                json::json_text(
                    control::session_cancel_frame(session.active_turn_session_id->Some_0),
                ),
            )
            &&& after.queued_prompts.len() == session.queued_prompts.len() + 1
            &&& after.queued_prompts[0].supersedes() == Some(turn_id)
            &&& after.queued_prompts[0].peer_id == peer_id
            &&& after.queued_prompts.drop_first() == session.queued_prompts
            &&& after.active_turn_mux_id == session.active_turn_mux_id
            &&& control::steer_pending(after.queued_prompts)
        }),
{
    let (after, write) = session.handle_amux_steer_request(peer_id, req);
    let control = session.control_params(req.params, false)->Ok_0;
    let item = after.queued_prompts[0];
    assert(after.queued_prompts =~= session.queued_prompts.insert(0, item));
    assert(after.queued_prompts.drop_first() =~= session.queued_prompts);
    assert(after.queued_prompts[0].kind is HardSteer);
}

/// Unqueueing undoes queueing: a prompt that was queued while a turn was active
/// and is then taken back leaves the queue as it was, whoever takes it back.
pub proof fn law_unqueue_undoes_queue(
    session: SessionView,
    peer_id: Seq<char>,
    req: RequestView,
    other: Seq<char>,
    back: RequestView,
)
    requires
        session.sound(),
        session.counters_left(),
        session.active_turn_mux_id is Some,
        session.control_params(req.params, false) is Ok,
        control::queue_count(session.queued_prompts) < state::MAX_MUX_QUEUE_PROMPTS,
        control::unqueue_target(back.params) == Ok::<_, Seq<char>>(
            control::queue_item_text(session.next_queue_item_id),
        ),
    ensures
        ({
            let (queued, write) = session.handle_amux_queue_prompt_request(peer_id, req);
            let after = queued.handle_amux_unqueue_prompt_request(other, back);
            &&& write is None
            &&& queued.queued_prompts.len() == session.queued_prompts.len() + 1
            &&& after.queued_prompts == session.queued_prompts
        }),
{
    let id = control::queue_item_text(session.next_queue_item_id);
    let before = session.queued_prompts;
    let (queued, write) = session.handle_amux_queue_prompt_request(peer_id, req);
    let waiting = queued.queued_prompts;
    assert(waiting.drop_last() =~= before);
    assert(waiting.last().queue_item_id == Some(id));
    sound::lemma_queue_position(waiting, id);
    let at = control::queue_position(waiting, id);
    assert forall|i: int| 0 <= i < before.len() implies (#[trigger] before[i]).queue_item_id
        != Some(id) by {
        assert(sound::numbered_before(before[i], session.next_queue_item_id));
        if let Some(text) = before[i].queue_item_id {
            let n = choose|n: u64|
                n < session.next_queue_item_id && text == #[trigger] control::queue_item_text(n);
            sound::lemma_queue_item_text(n, session.next_queue_item_id);
        }
    }
    assert(waiting[before.len() as int] == waiting.last());
    if at < before.len() {
        assert(waiting[at] == before[at]);
    }
    assert(at == before.len());
    assert(waiting.remove(at) =~= before);
}

/// The handshake happens once: when the agent's answer to `initialize` or
/// `session/new` is known, everybody who asks gets that answer, and the agent is
/// not asked again.
pub proof fn law_handshake_is_answered_locally(
    session: SessionView,
    peer_id: Seq<char>,
    req: RequestView,
)
    requires
        req.method == "initialize"@ && session.initialize_cache is Some || req.method
            == "session/new"@ && session.session_new_cache is Some,
        session.reachable(peer_id),
    ensures
        ({
            let (after, write) = session.translate_outbound_request(peer_id, req);
            let known = if req.method == "initialize"@ {
                session.initialize_cache
            } else {
                session.session_new_cache
            };
            &&& write is None
            &&& after.pending == session.pending
            &&& after.outbox == session.outbox.push(
                DeliveryView {
                    peer_id,
                    message: OutMsgView::Frame(
                        json::json_text(
                            ResponseView { id: req.id, result: known, error: None }.json(),
                        ),
                    ),
                },
            )
        }),
{
    reveal_strlit("session/attach");
    reveal_strlit("session/detach");
    reveal_strlit("initialize");
    reveal_strlit("session/new");
    assert("initialize"@.len() == 10 && "session/new"@.len() == 11 && "session/attach"@.len() == 14
        && "session/detach"@.len() == 14);
}

/// A load that fails changes nothing but that it has been answered: the session
/// keeps its id, its remembered answers, its log and its queue.
pub proof fn law_failed_load_changes_nothing(session: SessionView, mux_id: u64, error: ErrorView)
    requires
        mux_id <= i64::MAX,
        session.sound(),
        assoc::lookup(session.pending, mux_id) matches Some(pending) && pending.handshake matches Some(
            HandshakeView::SessionLoad { .. },
        ),
    ensures
        ({
            let resp = ResponseView {
                id: state::wire_id(mux_id),
                result: None,
                error: Some(error),
            };
            let (after, write) = session.route_agent_response(resp);
            &&& write is None
            &&& after == (SessionView {
                pending: assoc::erase(session.pending, mux_id),
                outbox: after.outbox,
                ..session
            })
        }),
{
    assert(agent::answered(state::wire_id(mux_id)) == Some(mux_id));
}

/// A load that succeeds makes everything go by the loaded session: the id that
/// the session is known by, the answer that late joiners get to `session/new`,
/// and every prompt that waits. The log has a new generation.
pub proof fn law_load_rebinds(
    session: SessionView,
    loaded: Seq<char>,
    replay_start_len: nat,
    result: JsonView,
)
    ensures
        ({
            let handshake = HandshakeView::SessionLoad {
                loaded_session_id: loaded,
                replay_start_len,
            };
            let after = session.remember(Some(handshake), Some(result));
            &&& after.canonical_session_id == Some(loaded)
            &&& after.acp_session_id() == Some(loaded)
            &&& after.cached_session_id() == Some(loaded)
            &&& after.queued_prompts.len() == session.queued_prompts.len()
            &&& forall|i: int|
                0 <= i < after.queued_prompts.len() ==> (#[trigger] after.queued_prompts[i])
                    == (QueuedPromptView { session_id: loaded, ..session.queued_prompts[i] })
            &&& after.replay_generation == state::bump(session.replay_generation)
            &&& after.initialize_cache == session.initialize_cache
        }),
{
    broadcast use json::lemma_get_field;

    let bound = session.rebind_canonical_session(loaded);
    assert(bound.session_new_cache->Some_0.get("sessionId"@) == Some(JsonView::String(loaded)));
}

/// A load that succeeds starts the log anew: whoever comes later is shown who is
/// attached, and then what was recorded since the load was asked for; of what was
/// recorded before, nothing is left.
pub proof fn law_load_starts_the_log_anew(
    session: SessionView,
    loaded: Seq<char>,
    replay_start_len: nat,
    result: JsonView,
)
    requires
        session.replay_log is Some,
    ensures
        ({
            let handshake = HandshakeView::SessionLoad {
                loaded_session_id: loaded,
                replay_start_len,
            };
            let after = session.remember(Some(handshake), Some(result));
            let log = session.replay_log->0;
            let peers = load::by_id(session.subscribers);
            let since = log.skip(load::at_most(replay_start_len, log.len()) as int);
            &&& after.replay_log matches Some(kept) && {
                &&& kept.len() == peers.len() + since.len()
                &&& kept.skip(peers.len() as int) == since
                &&& forall|i: int|
                    0 <= i < peers.len() ==> (#[trigger] kept[i]).frame == json::json_text(
                        amux::peer_joined_frame(
                            session.session_id,
                            peers[i].peer_id,
                            peers[i].peer_name,
                            peers[i].role,
                        ),
                    )
            }
            &&& peers.len() == session.subscribers.len()
        }),
{
    let log = session.replay_log->0;
    let peers = load::by_id(session.subscribers);
    let since = log.skip(load::at_most(replay_start_len, log.len()) as int);
    let frames = load::presence_frames(session.session_id, peers);
    let presence = load::numbered(frames, session.clock, session.next_replay_seq).0;
    lemma_by_id_len(session.subscribers);
    lemma_numbered_frames(frames, session.clock, session.next_replay_seq);
    assert((presence + since).skip(peers.len() as int) =~= since);
}

/// Frames that are numbered are the same frames.
pub proof fn lemma_numbered_frames(frames: Seq<Seq<u8>>, recorded_at: Seq<char>, first: u64)
    ensures
        load::numbered(frames, recorded_at, first).0.len() == frames.len(),
        forall|i: int|
            0 <= i < frames.len() ==> (#[trigger] load::numbered(
                frames,
                recorded_at,
                first,
            ).0[i]).frame == frames[i],
    decreases frames.len(),
{
    if frames.len() > 0 {
        lemma_numbered_frames(frames.drop_last(), recorded_at, first);
    }
}

/// Loading the same session again changes neither its id, nor the remembered
/// answer, nor the prompts that wait.
pub proof fn law_rebinding_twice_is_rebinding_once(session: SessionView, loaded: Seq<char>)
    ensures
        session.rebind_canonical_session(loaded).rebind_canonical_session(loaded)
            == session.rebind_canonical_session(loaded),
{
    let once = session.rebind_canonical_session(loaded);
    let twice = once.rebind_canonical_session(loaded);
    assert(once.queued_prompts =~= twice.queued_prompts);
    let members = once.session_new_cache->Some_0->Object_0;
    let value = JsonView::String(loaded);
    let before = match session.session_new_cache {
        Some(JsonView::Object(before)) => before,
        _ => Seq::empty(),
    };
    assoc::lemma_store(before, "sessionId"@, value, "sessionId"@);
    assoc::lemma_index_of(members, "sessionId"@);
    assert(assoc::store(members, "sessionId"@, value) =~= members);
}

/// How many of the messages go to a peer.
pub open spec fn deliveries_to(messages: Seq<DeliveryView>, peer_id: Seq<char>) -> nat
    decreases messages.len(),
{
    if messages.len() == 0 {
        0
    } else {
        deliveries_to(messages.drop_last(), peer_id) + if messages.last().peer_id == peer_id {
            1nat
        } else {
            0nat
        }
    }
}

/// A message to each of some peers reaches a peer once where it is among them,
/// and otherwise never.
proof fn lemma_to_each(
    subscribers: Seq<(Seq<char>, SubscriberView)>,
    message: OutMsgView,
    peer_id: Seq<char>,
)
    requires
        assoc::distinct(subscribers),
    ensures
        deliveries_to(state::to_each(subscribers, message), peer_id) == if assoc::holds(
            subscribers,
            peer_id,
        ) {
            1nat
        } else {
            0nat
        },
    decreases subscribers.len(),
{
    assoc::lemma_index_of(subscribers, peer_id);
    let sent = state::to_each(subscribers, message);
    if subscribers.len() > 0 {
        let front = subscribers.drop_last();
        lemma_to_each(front, message, peer_id);
        assoc::lemma_index_of(front, peer_id);
        assert(sent.drop_last() =~= state::to_each(front, message));
        if subscribers.last().0 == peer_id {
            assoc::lemma_index_is(front, peer_id, front.len() as int);
            assoc::lemma_index_is(subscribers, peer_id, front.len() as int);
        } else if assoc::holds(front, peer_id) {
            assoc::lemma_index_is(subscribers, peer_id, assoc::index_of(front, peer_id));
        } else {
            assert forall|j: int| 0 <= j < subscribers.len() implies subscribers[j].0 != peer_id by {
                if j < front.len() {
                    assert(front[j] == subscribers[j]);
                }
            }
            assoc::lemma_index_is(subscribers, peer_id, subscribers.len() as int);
        }
    }
}

/// A broadcast reaches every peer whose channel takes messages, each once, and
/// nobody else; who could not be reached is no longer attached. Where frames are
/// kept, it is recorded once, behind everything recorded before.
pub proof fn law_broadcast_reaches_everybody_once(
    session: SessionView,
    frame: Seq<u8>,
    peer_id: Seq<char>,
)
    requires
        session.sound(),
    ensures
        ({
            let after = session.broadcast(frame);
            let sent = state::to_each(after.subscribers, OutMsgView::Frame(frame));
            &&& after.outbox == session.outbox + sent
            &&& deliveries_to(sent, peer_id) == if session.reachable(peer_id) {
                1nat
            } else {
                0nat
            }
            &&& assoc::holds(after.subscribers, peer_id) == session.reachable(peer_id)
            &&& match (session.replay_log, after.replay_log) {
                (Some(before), Some(log)) => log.len() == before.len() + 1 && log.drop_last()
                    == before && log.last().frame == frame && log.last().recorded_at
                    == session.clock && log.last().seq == session.next_replay_seq,
                (None, None) => true,
                _ => false,
            }
        }),
{
    lemma_live_lookup(session.subscribers, peer_id);
    sound::lemma_live(session.subscribers);
    lemma_to_each(state::live(session.subscribers), OutMsgView::Frame(frame), peer_id);
    if let Some(before) = session.replay_log {
        let log = session.broadcast(frame).replay_log->Some_0;
        assert(log.drop_last() =~= before);
    }
}

/// Who comes late misses nothing: a peer that attaches is told where the agent
/// runs and then gets, in order, everything that was recorded before it came.
/// The others only hear that it joined, and that is recorded.
pub proof fn law_late_joiner_misses_nothing(session: SessionView, subscriber: SubscriberView)
    requires
        session.sound(),
        !assoc::holds(session.subscribers, subscriber.peer_id),
        subscriber.open,
    ensures
        ({
            let (after, result) = session.attach(subscriber);
            let joined = json::json_text(
                amux::peer_joined_frame(
                    session.session_id,
                    subscriber.peer_id,
                    subscriber.peer_name,
                    subscriber.role,
                ),
            );
            let context = json::json_text(
                amux::session_context_frame(session.session_id, session.agent_cwd),
            );
            &&& result is Ok
            &&& after.subscribers == state::live(session.subscribers).push(
                (subscriber.peer_id, subscriber),
            )
            &&& after.outbox == session.outbox + state::to_each(
                state::live(session.subscribers),
                OutMsgView::Frame(joined),
            ) + attach_all(
                subscriber.peer_id,
                context,
                attach::replay_frames(session.replay_log),
            )
            &&& after.replay_log == session.record(joined).replay_log
        }),
{
    let peer_id = subscriber.peer_id;
    lemma_live_lookup(session.subscribers, peer_id);
    let live = state::live(session.subscribers);
    assoc::lemma_store(live, peer_id, subscriber, peer_id);
    let (after, _) = session.attach(subscriber);
    let joined = json::json_text(
        amux::peer_joined_frame(
            session.session_id,
            peer_id,
            subscriber.peer_name,
            subscriber.role,
        ),
    );
    let context = json::json_text(
        amux::session_context_frame(session.session_id, session.agent_cwd),
    );
    assert(after.outbox =~= session.outbox + state::to_each(live, OutMsgView::Frame(joined))
        + attach_all(peer_id, context, attach::replay_frames(session.replay_log)));
}

/// What a peer is sent when it attaches.
pub open spec fn attach_all(
    peer_id: Seq<char>,
    context: Seq<u8>,
    replayed: Seq<Seq<u8>>,
) -> Seq<DeliveryView> {
    seq![DeliveryView { peer_id, message: OutMsgView::Frame(context) }] + state::all_to(
        peer_id,
        replayed,
    )
}

/// A peer id that is taken cannot be taken again: nothing changes, and the peer
/// that has it stays.
pub proof fn law_peer_id_is_taken_once(session: SessionView, subscriber: SubscriberView)
    requires
        assoc::holds(session.subscribers, subscriber.peer_id),
    ensures
        session.attach(subscriber) == (session, Err::<(), _>(AttachError::PeerIdInUse)),
{
}

/// Work goes on without the one who asked for it: a peer that leaves takes
/// neither its turn, nor its requests, nor its waiting prompts with it. It is no
/// longer attached and no longer drives.
pub proof fn law_detach_leaves_the_work(session: SessionView, peer_id: Seq<char>)
    requires
        session.sound(),
    ensures
        ({
            let (after, empty) = session.detach(peer_id);
            &&& after.queued_prompts == session.queued_prompts
            &&& after.pending == session.pending
            &&& after.active_turn_mux_id == session.active_turn_mux_id
            &&& after.agent_pending == session.agent_pending
            &&& !assoc::holds(after.subscribers, peer_id)
            &&& after.driving_subscriber_peer_id != Some(peer_id)
            &&& empty == (after.subscribers.len() == 0)
        }),
{
    if let Some(peer) = assoc::lookup(session.subscribers, peer_id) {
        assoc::lemma_erase(session.subscribers, peer_id, peer_id);
        let erased = SessionView {
            subscribers: assoc::erase(session.subscribers, peer_id),
            ..session
        };
        let left = erased.broadcast(
            json::json_text(amux::peer_left_frame(session.session_id, peer_id)),
        );
        lemma_live_lookup(erased.subscribers, peer_id);
        sound::lemma_live(erased.subscribers);
        let told = match left.acp_session_id() {
            Some(acp_id) => left.broadcast(
                json::json_text(
                    session_update::client_disconnected_frame(acp_id, peer_id, peer.peer_name),
                ),
            ),
            None => left,
        };
        lemma_live_lookup(left.subscribers, peer_id);
        sound::lemma_live(left.subscribers);
        lemma_gone_stays_gone(told, session.orphan_frames(peer_id), peer_id);
        attach::lemma_broadcast_all_scope(told, session.orphan_frames(peer_id));
    }
}

/// Telling the peers something attaches nobody.
proof fn lemma_gone_stays_gone(session: SessionView, frames: Seq<Seq<u8>>, peer_id: Seq<char>)
    requires
        assoc::distinct(session.subscribers),
        !assoc::holds(session.subscribers, peer_id),
    ensures
        assoc::distinct(session.broadcast_all(frames).subscribers),
        !assoc::holds(session.broadcast_all(frames).subscribers, peer_id),
    decreases frames.len(),
{
    if frames.len() > 0 {
        lemma_gone_stays_gone(session, frames.drop_last(), peer_id);
        let front = session.broadcast_all(frames.drop_last());
        lemma_live_lookup(front.subscribers, peer_id);
        sound::lemma_live(front.subscribers);
    }
}

/// What goes to one peer is not recorded.
pub proof fn law_private_messages_are_not_recorded(
    session: SessionView,
    peer_id: Seq<char>,
    message: OutMsgView,
    frames: Seq<Seq<u8>>,
)
    ensures
        session.send_to(peer_id, message).replay_log == session.replay_log,
        session.send_frames_to(peer_id, frames).replay_log == session.replay_log,
{
}

/// A session outlives its last peer by its time to live: a peer that leaves does
/// not end it, and where nobody is left, the timer starts. It ends of age only
/// while nobody is attached, and then it does; whoever attaches stops the timer.
pub proof fn law_session_ends_of_age_only_when_empty(actor: ActorView, msg: MsgView)
    ensures
        ({
            let (after, step) = actor.step(msg);
            &&& step.exit == Some(ExitReason::TtlExpired) <==> msg is TtlElapsed
                && actor.inner.subscribers.len() == 0
            &&& msg is Detach ==> step.exit is None
            &&& msg is Detach && after.inner.subscribers.len() == 0 ==> step.timer
                == TtlTimer::Start && after.ttl_pending
            &&& step.timer == TtlTimer::Start ==> msg is Detach && after.inner.subscribers.len()
                == 0
            &&& step.attached matches Some(Ok(_)) ==> step.timer == TtlTimer::Stop
                && !after.ttl_pending && step.exit is None
        }),
{
}

/// Nobody is attached until somebody attaches: an empty session stays empty
/// through every other event, and its timer is not stopped.
#[verifier::spinoff_prover]
pub proof fn law_empty_session_waits(actor: ActorView, msg: MsgView)
    requires
        actor.inner.subscribers.len() == 0,
        !(msg is Attach),
    ensures
        actor.step(msg).0.inner.subscribers.len() == 0,
        actor.step(msg).1.timer != TtlTimer::Stop,
        actor.ttl_pending ==> actor.step(msg).0.ttl_pending,
{
    match msg {
        MsgView::InboundFromSubscriber { peer_id, bytes } => {
            lemma_inbound_stays_empty(actor.inner, peer_id, bytes);
        },
        MsgView::AgentStdoutLine(line) => {
            if let Ok(IncomingView::Response(resp)) = IncomingView::read(line) {
                lemma_response_stays_empty(actor.inner, resp);
            }
        },
        _ => {},
    }
}

#[verifier::spinoff_prover]
proof fn lemma_inbound_stays_empty(session: SessionView, peer_id: Seq<char>, bytes: Seq<u8>)
    requires
        session.subscribers.len() == 0,
    ensures
        session.handle_inbound(peer_id, bytes).0.subscribers.len() == 0,
{
    if let Ok(IncomingView::Request(req)) = IncomingView::read(bytes) {
        if req.method == amux::METHOD_STEER_ACTIVE_TURN@ {
            lemma_steer_stays_empty(session, peer_id, req);
        } else if req.method == amux::METHOD_QUEUE_PROMPT@ {
            lemma_queue_stays_empty(session, peer_id, req);
        } else {
            lemma_forward_stays_empty(session, peer_id, req);
        }
    }
}

proof fn lemma_steer_stays_empty(session: SessionView, peer_id: Seq<char>, req: RequestView)
    requires
        session.subscribers.len() == 0,
    ensures
        session.handle_amux_steer_request(peer_id, req).0.subscribers.len() == 0,
{
}

proof fn lemma_queue_stays_empty(session: SessionView, peer_id: Seq<char>, req: RequestView)
    requires
        session.subscribers.len() == 0,
    ensures
        session.handle_amux_queue_prompt_request(peer_id, req).0.subscribers.len() == 0,
{
}

proof fn lemma_forward_stays_empty(session: SessionView, peer_id: Seq<char>, req: RequestView)
    requires
        session.subscribers.len() == 0,
    ensures
        session.forward_request(peer_id, req).0.subscribers.len() == 0,
{
}

proof fn lemma_broadcast_all_stays_empty(session: SessionView, frames: Seq<Seq<u8>>)
    requires
        session.subscribers.len() == 0,
    ensures
        session.broadcast_all(frames).subscribers.len() == 0,
    decreases frames.len(),
{
    if frames.len() > 0 {
        lemma_broadcast_all_stays_empty(session, frames.drop_last());
    }
}

proof fn lemma_response_stays_empty(session: SessionView, resp: ResponseView)
    requires
        session.subscribers.len() == 0,
    ensures
        session.route_agent_response(resp).0.subscribers.len() == 0,
{
    if let Some(mux_id) = agent::answered(resp.id) {
        if let Some(pending) = assoc::lookup(session.pending, mux_id) {
            let settled = SessionView {
                pending: assoc::erase(session.pending, mux_id),
                ..session
            };
            lemma_finish_stays_empty(settled, pending.queue_item_id, resp.result);
            let after = if session.active_turn_mux_id == Some(mux_id) {
                settled.finish_turn(pending.queue_item_id, resp.result).0
            } else {
                settled
            };
            lemma_remember_stays_empty(after, pending.handshake, resp.result);
        }
    }
}

proof fn lemma_finish_stays_empty(
    session: SessionView,
    queue_item_id: Option<Seq<char>>,
    result: Option<JsonView>,
)
    requires
        session.subscribers.len() == 0,
    ensures
        session.finish_turn(queue_item_id, result).0.subscribers.len() == 0,
{
    let idle = session.idle();
    let stale = agent::in_flight(idle.agent_pending);
    agent::lemma_consume_all_scope(idle, stale);
    lemma_broadcast_all_stays_empty(
        idle.consume_all(stale),
        idle.settled_frames(stale, agent::RESOLVED_BY_TURN_END@),
    );
}

proof fn lemma_remember_stays_empty(
    session: SessionView,
    handshake: Option<HandshakeView>,
    result: Option<JsonView>,
)
    ensures
        session.remember(handshake, result).subscribers == session.subscribers,
{
}

/// Whoever comes back joins the same session: the remembered answers, the
/// requests, the turn, the queue and the counters are as they were, and the log
/// goes on where it stopped.
pub proof fn law_who_comes_back_joins_the_same_session(
    actor: ActorView,
    subscriber: SubscriberView,
)
    requires
        !assoc::holds(actor.inner.subscribers, subscriber.peer_id),
    ensures
        ({
            let (after, step) = actor.step(MsgView::Attach { subscriber });
            let (before, now) = (actor.inner, after.inner);
            &&& step.attached matches Some(Ok(_))
            &&& now == (SessionView {
                subscribers: now.subscribers,
                index: now.index,
                replay_log: now.replay_log,
                next_replay_seq: now.next_replay_seq,
                outbox: now.outbox,
                ..before
            })
            &&& match (before.replay_log, now.replay_log) {
                (Some(log), Some(longer)) => longer.len() == log.len() + 1 && longer.drop_last()
                    == log,
                (None, None) => now.next_replay_seq == before.next_replay_seq,
                _ => false,
            }
        }),
{
    if let Some(log) = actor.inner.replay_log {
        let longer = actor.step(MsgView::Attach { subscriber }).0.inner.replay_log->Some_0;
        assert(longer.drop_last() =~= log);
    }
}

/// When the agent has died, every peer whose channel takes messages is told once,
/// with the close code for it, and nobody else is; any other end tells nobody.
/// Either way nobody is attached any more.
pub proof fn law_dead_agent_closes_every_peer(
    actor: ActorView,
    reason: ExitReason,
    peer_id: Seq<char>,
)
    requires
        actor.inner.sound(),
    ensures
        ({
            let after = actor.finish(reason).inner;
            let close = OutMsgView::Close {
                code: state::WS_CLOSE_AGENT_DEAD,
                reason: "agent subprocess exited"@,
            };
            let sent = state::to_each(state::live(actor.inner.subscribers), close);
            &&& after.subscribers.len() == 0
            &&& reason == ExitReason::AgentDied ==> after.outbox == actor.inner.outbox + sent
                && deliveries_to(sent, peer_id) == if actor.inner.reachable(peer_id) {
                1nat
            } else {
                0nat
            }
            &&& reason != ExitReason::AgentDied ==> after.outbox == actor.inner.outbox
        }),
{
    let close = OutMsgView::Close {
        code: state::WS_CLOSE_AGENT_DEAD,
        reason: "agent subprocess exited"@,
    };
    lemma_live_lookup(actor.inner.subscribers, peer_id);
    sound::lemma_live(actor.inner.subscribers);
    lemma_to_each(state::live(actor.inner.subscribers), close, peer_id);
}

/// A line of the agent that loses the last peer ends the session, whatever the
/// line was, and no other line does.
pub proof fn law_line_that_loses_everybody_ends_the_session(actor: ActorView, line: Seq<u8>)
    ensures
        ({
            let (after, step) = actor.step(MsgView::AgentStdoutLine(line));
            step.exit == if actor.inner.subscribers.len() > 0 && after.inner.subscribers.len()
                == 0 {
                Some(ExitReason::LastSubscriberLeft)
            } else {
                None
            }
        }),
{
    sound::lemma_live(actor.inner.subscribers);
    sound::lemma_live(state::live(actor.inner.subscribers));
}

/// The first answer to `initialize` is the one that counts: once known, it is
/// kept whatever happens.
pub proof fn law_first_initialize_answer_is_kept(actor: ActorView, msg: MsgView)
    requires
        actor.inner.initialize_cache is Some,
    ensures
        actor.step(msg).0.inner.initialize_cache == actor.inner.initialize_cache,
{
    match msg {
        MsgView::InboundFromSubscriber { peer_id, bytes } => {
            lemma_inbound_leaves_caches(actor.inner, peer_id, bytes);
        },
        MsgView::AgentStdoutLine(line) => {
            if let Ok(IncomingView::Response(resp)) = IncomingView::read(line) {
                lemma_response_leaves_caches(actor.inner, resp);
            }
        },
        MsgView::Detach { peer_id } => {
            lemma_detach_leaves_caches(actor.inner, peer_id);
        },
        _ => {},
    }
}

/// What subscribers send changes none of the remembered answers.
pub proof fn law_subscribers_change_no_remembered_answer(
    session: SessionView,
    peer_id: Seq<char>,
    bytes: Seq<u8>,
)
    ensures
        session.handle_inbound(peer_id, bytes).0.initialize_cache == session.initialize_cache,
        session.handle_inbound(peer_id, bytes).0.session_new_cache == session.session_new_cache,
        session.handle_inbound(peer_id, bytes).0.canonical_session_id
            == session.canonical_session_id,
{
    lemma_inbound_leaves_caches(session, peer_id, bytes);
}

/// Two sessions remember the same answers.
spec fn remembers_alike(a: SessionView, b: SessionView) -> bool {
    &&& a.initialize_cache == b.initialize_cache
    &&& a.session_new_cache == b.session_new_cache
    &&& a.canonical_session_id == b.canonical_session_id
}

#[verifier::spinoff_prover]
proof fn lemma_inbound_leaves_caches(session: SessionView, peer_id: Seq<char>, bytes: Seq<u8>)
    ensures
        remembers_alike(session.handle_inbound(peer_id, bytes).0, session),
{
    if let Ok(IncomingView::Request(req)) = IncomingView::read(bytes) {
        if req.method == amux::METHOD_STEER_ACTIVE_TURN@ {
            lemma_steer_leaves_caches(session, peer_id, req);
        } else if req.method == amux::METHOD_QUEUE_PROMPT@ {
            lemma_queue_leaves_caches(session, peer_id, req);
        } else {
            lemma_forward_leaves_caches(session, peer_id, req);
        }
    }
}

proof fn lemma_steer_leaves_caches(session: SessionView, peer_id: Seq<char>, req: RequestView)
    ensures
        remembers_alike(session.handle_amux_steer_request(peer_id, req).0, session),
{
}

proof fn lemma_queue_leaves_caches(session: SessionView, peer_id: Seq<char>, req: RequestView)
    ensures
        remembers_alike(session.handle_amux_queue_prompt_request(peer_id, req).0, session),
{
}

proof fn lemma_forward_leaves_caches(session: SessionView, peer_id: Seq<char>, req: RequestView)
    ensures
        remembers_alike(session.forward_request(peer_id, req).0, session),
{
}

proof fn lemma_response_leaves_caches(session: SessionView, resp: ResponseView)
    ensures
        session.initialize_cache is Some ==> session.route_agent_response(resp).0.initialize_cache
            == session.initialize_cache,
{
    if let Some(mux_id) = agent::answered(resp.id) {
        if let Some(pending) = assoc::lookup(session.pending, mux_id) {
            let settled = SessionView {
                pending: assoc::erase(session.pending, mux_id),
                ..session
            };
            agent::lemma_sweep_scope(settled.idle(), agent::RESOLVED_BY_TURN_END@);
            lemma_finish_leaves_caches(settled, pending.queue_item_id, resp.result);
        }
    }
}

proof fn lemma_finish_leaves_caches(
    session: SessionView,
    queue_item_id: Option<Seq<char>>,
    result: Option<JsonView>,
)
    ensures
        remembers_alike(
            session.finish_turn(queue_item_id, result).0,
            session.idle().sweep_stale_agent_pending(agent::RESOLVED_BY_TURN_END@),
        ),
{
}

proof fn lemma_detach_leaves_caches(session: SessionView, peer_id: Seq<char>)
    ensures
        remembers_alike(session.detach(peer_id).0, session),
{
    if let Some(peer) = assoc::lookup(session.subscribers, peer_id) {
        let left = SessionView {
            subscribers: assoc::erase(session.subscribers, peer_id),
            ..session
        }.broadcast(json::json_text(amux::peer_left_frame(session.session_id, peer_id)));
        let told = match left.acp_session_id() {
            Some(acp_id) => left.broadcast(
                json::json_text(
                    session_update::client_disconnected_frame(acp_id, peer_id, peer.peer_name),
                ),
            ),
            None => left,
        };
        attach::lemma_broadcast_all_scope(told, session.orphan_frames(peer_id));
    }
}

/// Whether frames are kept is settled at the start: a session that keeps none
/// never keeps any, and one that keeps them never stops.
pub proof fn law_keeping_frames_is_settled(actor: ActorView, msg: MsgView)
    ensures
        actor.step(msg).0.inner.replay_log is Some <==> actor.inner.replay_log is Some,
{
    match msg {
        MsgView::InboundFromSubscriber { peer_id, bytes } => {
            lemma_inbound_keeps_log(actor.inner, peer_id, bytes);
        },
        MsgView::AgentStdoutLine(line) => {
            lemma_agent_line_keeps_log(actor.inner, line);
        },
        MsgView::Detach { peer_id } => {
            lemma_detach_keeps_log(actor.inner, peer_id);
        },
        _ => {},
    }
}

proof fn lemma_inbound_keeps_log(session: SessionView, peer_id: Seq<char>, bytes: Seq<u8>)
    ensures
        session.handle_inbound(peer_id, bytes).0.replay_log is Some <==> session.replay_log is Some,
{
    if let Ok(IncomingView::Request(req)) = IncomingView::read(bytes) {
        lemma_outbound_keeps_log(session, peer_id, req);
    }
}

proof fn lemma_outbound_keeps_log(session: SessionView, peer_id: Seq<char>, req: RequestView)
    ensures
        session.translate_outbound_request(peer_id, req).0.replay_log is Some
            <==> session.replay_log is Some,
{
    lemma_steer_keeps_log(session, peer_id, req);
    lemma_queue_keeps_log(session, peer_id, req);
    lemma_forward_keeps_log(session, peer_id, req);
}

proof fn lemma_agent_line_keeps_log(session: SessionView, line: Seq<u8>)
    ensures
        session.handle_agent_line(line).0.replay_log is Some <==> session.replay_log is Some,
{
    if let Ok(IncomingView::Response(resp)) = IncomingView::read(line) {
        lemma_response_keeps_log(session, resp);
    }
}

proof fn lemma_steer_keeps_log(session: SessionView, peer_id: Seq<char>, req: RequestView)
    ensures
        session.handle_amux_steer_request(peer_id, req).0.replay_log is Some
            <==> session.replay_log is Some,
{
}

proof fn lemma_queue_keeps_log(session: SessionView, peer_id: Seq<char>, req: RequestView)
    ensures
        session.handle_amux_queue_prompt_request(peer_id, req).0.replay_log is Some
            <==> session.replay_log is Some,
{
}

proof fn lemma_forward_keeps_log(session: SessionView, peer_id: Seq<char>, req: RequestView)
    ensures
        session.forward_request(peer_id, req).0.replay_log is Some <==> session.replay_log is Some,
{
}

proof fn lemma_broadcast_all_keeps_log(session: SessionView, frames: Seq<Seq<u8>>)
    ensures
        session.broadcast_all(frames).replay_log is Some <==> session.replay_log is Some,
    decreases frames.len(),
{
    if frames.len() > 0 {
        lemma_broadcast_all_keeps_log(session, frames.drop_last());
    }
}

proof fn lemma_response_keeps_log(session: SessionView, resp: ResponseView)
    ensures
        session.route_agent_response(resp).0.replay_log is Some <==> session.replay_log is Some,
{
    if let Some(mux_id) = agent::answered(resp.id) {
        if let Some(pending) = assoc::lookup(session.pending, mux_id) {
            let settled = SessionView {
                pending: assoc::erase(session.pending, mux_id),
                ..session
            };
            lemma_finish_keeps_log(settled, pending.queue_item_id, resp.result);
        }
    }
}

proof fn lemma_finish_keeps_log(
    session: SessionView,
    queue_item_id: Option<Seq<char>>,
    result: Option<JsonView>,
)
    ensures
        session.finish_turn(queue_item_id, result).0.replay_log is Some
            <==> session.replay_log is Some,
{
    let idle = session.idle();
    let stale = agent::in_flight(idle.agent_pending);
    agent::lemma_consume_all_scope(idle, stale);
    lemma_broadcast_all_keeps_log(
        idle.consume_all(stale),
        idle.settled_frames(stale, agent::RESOLVED_BY_TURN_END@),
    );
}

proof fn lemma_detach_keeps_log(session: SessionView, peer_id: Seq<char>)
    ensures
        session.detach(peer_id).0.replay_log is Some <==> session.replay_log is Some,
{
    if let Some(peer) = assoc::lookup(session.subscribers, peer_id) {
        let left = SessionView {
            subscribers: assoc::erase(session.subscribers, peer_id),
            ..session
        }.broadcast(json::json_text(amux::peer_left_frame(session.session_id, peer_id)));
        let told = match left.acp_session_id() {
            Some(acp_id) => left.broadcast(
                json::json_text(
                    session_update::client_disconnected_frame(acp_id, peer_id, peer.peer_name),
                ),
            ),
            None => left,
        };
        lemma_broadcast_all_keeps_log(told, session.orphan_frames(peer_id));
    }
}

impl SessionView {
    /// The numbers of the recorded frames were given out, and no two are the
    /// same.
    pub open spec fn log_numbered(self) -> bool {
        self.replay_log matches Some(log) ==> {
            &&& forall|i: int| 0 <= i < log.len() ==> (#[trigger] log[i]).seq < self.next_replay_seq
            &&& forall|i: int, j: int| 0 <= i < j < log.len() ==> log[i].seq != log[j].seq
        }
    }
}

/// Recorded frames have numbers of their own, as long as the numbers last:
/// recording one, and starting a new generation after a load, give out new ones.
pub proof fn law_recorded_frames_are_told_apart(
    session: SessionView,
    frame: Seq<u8>,
    loaded: Seq<char>,
    replay_start_len: nat,
)
    requires
        session.log_numbered(),
        session.next_replay_seq + session.subscribers.len() < u64::MAX,
    ensures
        session.broadcast(frame).log_numbered(),
        session.reset_replay_generation_after_load(loaded, replay_start_len).log_numbered(),
{
    if let Some(log) = session.replay_log {
        let frames = load::presence_frames(session.session_id, load::by_id(session.subscribers));
        lemma_by_id_len(session.subscribers);
        lemma_numbered(frames, session.clock, session.next_replay_seq);
    }
}

pub proof fn lemma_by_id_len(subscribers: Seq<(Seq<char>, SubscriberView)>)
    ensures
        load::by_id(subscribers).len() == subscribers.len(),
    decreases subscribers.len(),
{
    if subscribers.len() > 0 {
        lemma_by_id_len(subscribers.drop_last());
        lemma_insert_len(load::by_id(subscribers.drop_last()), subscribers.last().1);
    }
}

proof fn lemma_insert_len(sorted: Seq<SubscriberView>, peer: SubscriberView)
    ensures
        load::insert_by_id(sorted, peer).len() == sorted.len() + 1,
    decreases sorted.len(),
{
    if sorted.len() > 0 {
        lemma_insert_len(sorted.drop_last(), peer);
    }
}

/// The numbers that frames are given, one after the other.
proof fn lemma_numbered(frames: Seq<Seq<u8>>, recorded_at: Seq<char>, first: u64)
    requires
        first + frames.len() < u64::MAX,
    ensures
        load::numbered(frames, recorded_at, first).0.len() == frames.len(),
        load::numbered(frames, recorded_at, first).1 == first + frames.len(),
        forall|i: int|
            0 <= i < frames.len() ==> (#[trigger] load::numbered(
                frames,
                recorded_at,
                first,
            ).0[i]).seq == first + i,
    decreases frames.len(),
{
    if frames.len() > 0 {
        lemma_numbered(frames.drop_last(), recorded_at, first);
    }
}

} // verus!

//! What passes through a session as it is, and what becomes of the rest: frames
//! of subscribers on their way to the agent, and lines of the agent on their way
//! to the subscribers.

use crate::assoc;
use crate::cli::ClientToolMode;
use crate::json;
use crate::json::JsonView;
use crate::multiplex::subscriber::{DeliveryView, OutMsgView};
use crate::protocol::amux;
use crate::protocol::amux::AmuxTurnId;
use crate::protocol::jsonrpc::{
    ErrorView, IdView, IncomingView, NotificationView, ParseErrorView, RequestView, ResponseView,
};
use crate::protocol::names::lemma_names;
use crate::protocol::session_update;
use crate::protocol::telling;
use crate::session::actor::{ActorView, MsgView};
use crate::session::agent;
use crate::session::control;
use crate::session::hearing;
use crate::session::hearing::{open_peers, round, rounds, told};
use crate::session::inbound;
use crate::session::laws;
use crate::session::marking;
use crate::session::metadata::TraceView;
use crate::session::state;
use crate::session::state::{AgentReqState, HandshakeView, PermissionView, SessionView};
use crate::session::turn;
use vstd::prelude::*;

verus! {

/// The session id that plain clients go by, as far as it is known: the one that
/// the session goes by, or else the one in the remembered answer to `session/new`.
pub open spec fn plain_id(session: SessionView) -> Option<Seq<char>> {
    match (session.canonical_session_id, session.session_new_cache) {
        (Some(id), _) => Some(id),
        (None, Some(result)) => match result.get("sessionId"@) {
            Some(JsonView::String(id)) => Some(id),
            _ => None,
        },
        (None, None) => None,
    }
}

/// A frame, and for plain clients another one where their session id is known.
pub open spec fn with_update(
    session: SessionView,
    frame: JsonView,
    update: spec_fn(Seq<char>) -> JsonView,
) -> Seq<Seq<u8>> {
    match plain_id(session) {
        Some(id) => seq![json::json_text(frame), json::json_text(update(id))],
        None => seq![json::json_text(frame)],
    }
}

/// An optional error as a document.
pub open spec fn error_doc(error: Option<ErrorView>) -> Option<JsonView> {
    match error {
        Some(error) => Some(error.json()),
        None => None,
    }
}

/// A notification of a subscriber that is not for the mux goes to the agent byte
/// for byte, and changes nothing: only `$/cancel_request` and
/// `amux/cancel_active_turn` are for the mux.
pub proof fn law_other_notifications_pass_unchanged(
    session: SessionView,
    peer_id: Seq<char>,
    bytes: Seq<u8>,
    notif: NotificationView,
)
    requires
        IncomingView::read(bytes) == Ok::<_, ParseErrorView>(
            IncomingView::Notification(notif),
        ),
        notif.method != "$/cancel_request"@,
        notif.method != "amux/cancel_active_turn"@,
    ensures
        session.handle_inbound(peer_id, bytes) == (session, Some(bytes)),
{
}

/// What a subscriber sends that is no JSON-RPC envelope is dropped, and changes
/// nothing.
pub proof fn law_what_is_no_envelope_is_dropped(
    session: SessionView,
    peer_id: Seq<char>,
    bytes: Seq<u8>,
)
    requires
        IncomingView::read(bytes) is Err,
    ensures
        session.handle_inbound(peer_id, bytes) == (session, None::<Seq<u8>>),
{
}

/// A frame of a subscriber that the session writes to the agent is what the agent
/// is written, and nothing else is.
pub proof fn law_step_writes_what_is_due(actor: ActorView, peer_id: Seq<char>, bytes: Seq<u8>)
    ensures
        ({
            let (after, step) = actor.step(MsgView::InboundFromSubscriber { peer_id, bytes });
            let (inner, write) = actor.inner.handle_inbound(peer_id, bytes);
            &&& after.inner == inner
            &&& after.ttl_pending == actor.ttl_pending
            &&& step.exit is None
            &&& match write {
                Some(frame) => step.writes_to_agent.len() == 1 && step.writes_to_agent[0] == frame,
                None => step.writes_to_agent.len() == 0,
            }
        }),
{
}

/// The permission requests that wait, but for one.
pub open spec fn others(pending: Seq<PermissionView>, id: IdView) -> Seq<PermissionView> {
    pending.filter(|permission: PermissionView| permission.id != id)
}

proof fn lemma_others(pending: Seq<PermissionView>, id: IdView)
    ensures
        inbound::without_permission(pending, id) == others(pending, id),
    decreases pending.len(),
{
    reveal(Seq::filter);
    if pending.len() > 0 {
        lemma_others(pending.drop_last(), id);
    }
}

/// A reply of a subscriber to a request that the session knows nothing of goes to
/// the agent byte for byte, and changes nothing.
pub proof fn law_other_replies_pass_unchanged(
    session: SessionView,
    peer_id: Seq<char>,
    bytes: Seq<u8>,
    resp: ResponseView,
)
    requires
        IncomingView::read(bytes) == Ok::<_, ParseErrorView>(
            IncomingView::Response(resp),
        ),
        !assoc::holds(session.agent_pending, resp.id),
    ensures
        session.handle_inbound(peer_id, bytes) == (session, Some(bytes)),
{
}

/// The option that a reply to a permission request chose.
pub open spec fn chosen(result: Option<JsonView>) -> Option<Seq<char>> {
    match result {
        Some(result) => match result.get("outcome"@) {
            Some(outcome) => match outcome.get("optionId"@) {
                Some(JsonView::String(option)) => Some(option),
                _ => None,
            },
            None => None,
        },
        None => None,
    }
}

/// The first reply to a request of the agent goes to the agent byte for byte. The
/// request waits no longer, everything else that waits goes on waiting, and the
/// peers are told who replied, and what.
pub proof fn law_first_reply_settles_the_request(
    session: SessionView,
    peer_id: Seq<char>,
    bytes: Seq<u8>,
    resp: ResponseView,
    other: IdView,
)
    requires
        IncomingView::read(bytes) == Ok::<_, ParseErrorView>(
            IncomingView::Response(resp),
        ),
        assoc::lookup(session.agent_pending, resp.id) == Some(AgentReqState::InFlight),
        assoc::distinct(session.subscribers),
    ensures
        ({
            let (after, write) = session.handle_inbound(peer_id, bytes);
            let name = if session.reachable(peer_id) || open_peers(session.subscribers).len()
                == session.subscribers.len() {
                session.peer_labels(peer_id).0
            } else {
                None
            };
            let frames = with_update(
                session,
                amux::agent_request_resolved_frame(
                    session.session_id,
                    resp.id.json(),
                    peer_id,
                    resp.result,
                    error_doc(resp.error),
                ),
                |id: Seq<char>|
                    session_update::permission_resolved_frame(
                        id,
                        resp.id.json(),
                        peer_id,
                        name,
                        chosen(resp.result),
                        resp.result,
                        error_doc(resp.error),
                    ),
            );
            &&& write == Some(bytes)
            &&& told(session, after, frames)
            &&& after.pending_permission_frames == others(
                session.pending_permission_frames,
                resp.id,
            )
            &&& assoc::lookup(after.agent_pending, other) == if other == resp.id {
                Some(AgentReqState::Consumed)
            } else {
                assoc::lookup(session.agent_pending, other)
            }
            &&& after == (SessionView {
                agent_pending: after.agent_pending,
                pending_permission_frames: after.pending_permission_frames,
                subscribers: after.subscribers,
                replay_log: after.replay_log,
                next_replay_seq: after.next_replay_seq,
                outbox: after.outbox,
                ..session
            })
        }),
{
    lemma_others(session.pending_permission_frames, resp.id);
    assoc::lemma_store(session.agent_pending, resp.id, AgentReqState::Consumed, other);
    let consumed = session.consume(resp.id);
    let first = json::json_text(
        amux::agent_request_resolved_frame(
            session.session_id,
            resp.id.json(),
            peer_id,
            resp.result,
            error_doc(resp.error),
        ),
    );
    let once = consumed.broadcast(first);
    hearing::lemma_told_nothing(consumed);
    hearing::lemma_told_more(consumed, consumed, Seq::empty(), first);
    assert(Seq::empty().push(first) =~= seq![first]);
    lemma_labels_after(consumed, first, peer_id);
    if let Some(id) = plain_id(session) {
        let second = json::json_text(
            session_update::permission_resolved_frame(
                id,
                resp.id.json(),
                peer_id,
                once.peer_labels(peer_id).0,
                chosen(resp.result),
                resp.result,
                error_doc(resp.error),
            ),
        );
        hearing::lemma_told_more(consumed, once, seq![first], second);
        assert(seq![first].push(second) =~= seq![first, second]);
    }
}

/// Whoever is reached keeps its name and role through a broadcast; whoever is not
/// is no longer attached.
pub proof fn lemma_labels_after(session: SessionView, frame: Seq<u8>, peer_id: Seq<char>)
    requires
        assoc::distinct(session.subscribers),
    ensures
        session.broadcast(frame).peer_labels(peer_id) == if session.reachable(peer_id) {
            session.peer_labels(peer_id)
        } else {
            (None, None)
        },
        open_peers(session.subscribers).len() == session.subscribers.len()
            ==> session.broadcast(frame).peer_labels(peer_id) == session.peer_labels(peer_id),
{
    laws::lemma_live_lookup(session.subscribers, peer_id);
    hearing::lemma_live_is_open(session.subscribers);
    lemma_all_open(session.subscribers);
    assoc::lemma_index_of(session.subscribers, peer_id);
}

proof fn lemma_all_open(subscribers: Seq<(Seq<char>, crate::multiplex::subscriber::SubscriberView)>)
    ensures
        open_peers(subscribers).len() <= subscribers.len(),
        open_peers(subscribers).len() == subscribers.len() ==> open_peers(subscribers)
            == subscribers,
    decreases subscribers.len(),
{
    reveal(Seq::filter);
    if subscribers.len() > 0 {
        lemma_all_open(subscribers.drop_last());
        if open_peers(subscribers).len() == subscribers.len() {
            assert(open_peers(subscribers) =~= subscribers);
        }
    }
}

/// Who a peer is, as the others see it.
pub open spec fn labels(session: SessionView, peer_id: Seq<char>) -> (
    Option<Seq<char>>,
    Option<Seq<char>>,
) {
    match assoc::lookup(session.subscribers, peer_id) {
        Some(peer) => (peer.peer_name, peer.role),
        None => (None, None),
    }
}

/// Whether a request of a subscriber is one that the mux answers itself.
pub open spec fn for_the_mux(session: SessionView, method: Seq<char>) -> bool {
    ||| method == "session/attach"@
    ||| method == "session/detach"@
    ||| method == "amux/steer_active_turn"@
    ||| method == "amux/queue_prompt"@
    ||| method == "amux/unqueue_prompt"@
    ||| method == "initialize"@ && session.initialize_cache is Some
    ||| method == "session/new"@ && session.session_new_cache is Some
    ||| method == "session/prompt"@ && session.active_turn_mux_id is Some
}

/// What the session is to remember of the answer to a request.
pub open spec fn to_remember(session: SessionView, req: RequestView, handshake: Option<HandshakeView>) -> bool {
    if req.method == "initialize"@ {
        handshake == Some(HandshakeView::Initialize)
    } else if req.method == "session/new"@ {
        handshake == Some(HandshakeView::SessionNew)
    } else if req.method == "session/load"@ {
        match req.params {
            Some(params) => match params.get("sessionId"@) {
                Some(JsonView::String(id)) => handshake == Some(
                    HandshakeView::SessionLoad {
                        loaded_session_id: id,
                        replay_start_len: match session.replay_log {
                            Some(log) => log.len(),
                            None => 0,
                        },
                    },
                ),
                _ => handshake is None,
            },
            None => handshake is None,
        }
    } else {
        handshake is None
    }
}

/// A request that the mux does not answer itself goes to the agent, under the next
/// mux id, with its method; the session notes who asked, under which id, and what
/// it is to remember of the answer. Unless it is a prompt, nobody else hears of
/// it and nothing of the turn changes.
pub proof fn law_other_requests_are_forwarded(
    session: SessionView,
    peer_id: Seq<char>,
    bytes: Seq<u8>,
    req: RequestView,
    mux_id: u64,
)
    requires
        IncomingView::read(bytes) == Ok::<_, ParseErrorView>(
            IncomingView::Request(req),
        ),
        !for_the_mux(session, req.method),
        session.sound(),
    ensures
        ({
            let (after, write) = session.handle_inbound(peer_id, bytes);
            &&& session.next_mux_id < u64::MAX ==> after.next_mux_id == session.next_mux_id + 1
            &&& exists|params: Option<JsonView>| #[trigger]
                crate::session::routing::sends(
                    write,
                    RequestView {
                        id: IdView::Number(session.next_mux_id as i64),
                        method: req.method,
                        params,
                    },
                )
            &&& !session.meta_propagate && req.method != "initialize"@ ==> write == Some(
                json::json_text(
                    RequestView {
                        id: IdView::Number(session.next_mux_id as i64),
                        ..req
                    }.json(),
                ),
            )
            &&& assoc::lookup(after.pending, session.next_mux_id) matches Some(pending) && {
                &&& pending.peer_id == peer_id
                &&& pending.original_id == req.id
                &&& pending.deliver_response
                &&& pending.queue_item_id is None
                &&& pending.decorate_session_list == (req.method == "session/list"@)
                &&& to_remember(session, req, pending.handshake)
            }
            &&& mux_id != session.next_mux_id ==> assoc::lookup(after.pending, mux_id)
                == assoc::lookup(session.pending, mux_id)
            &&& req.method != "initialize"@ && assoc::holds(session.subscribers, peer_id)
                ==> after.driving_subscriber_peer_id == Some(peer_id)
            &&& req.method != "session/prompt"@ ==> {
                &&& after.outbox == session.outbox
                &&& after.replay_log == session.replay_log
                &&& after.active_turn_mux_id == session.active_turn_mux_id
                &&& after.active_amux_turn_id == session.active_amux_turn_id
                &&& after.next_amux_turn_id == session.next_amux_turn_id
            }
            &&& after.queued_prompts == session.queued_prompts
            &&& after.agent_pending == session.agent_pending
            &&& after.initialize_cache == session.initialize_cache
            &&& after.session_new_cache == session.session_new_cache
            &&& after.canonical_session_id == session.canonical_session_id
        }),
{
    lemma_names();
    crate::session::routing::law_forwarded_request_is_noted(session, peer_id, req);
    let params = if req.method == "initialize"@ {
        inbound::sanitized(session.client_tool_policy, req.params)
    } else {
        req.params
    };
    let noted = if req.method == "initialize"@ {
        session
    } else {
        session.note_driving_subscriber(peer_id)
    };
    let pending = state::PendingView {
        peer_id,
        original_id: req.id,
        handshake: noted.handshake_of(req.method, params),
        decorate_session_list: req.method == "session/list"@,
        deliver_response: true,
        queue_item_id: None,
    };
    let after = session.handle_inbound(peer_id, bytes).0;
    assert(session.handle_inbound(peer_id, bytes) == session.forward_request(peer_id, req));
    assert(after.pending == assoc::store(session.pending, session.next_mux_id, pending));
    assoc::lemma_store(session.pending, session.next_mux_id, pending, mux_id);
    assoc::lemma_store(session.pending, session.next_mux_id, pending, session.next_mux_id);
}

/// The prompt of a request, or null.
pub open spec fn prompt_in(params: Option<JsonView>) -> JsonView {
    match params {
        Some(params) => match params.get("prompt"@) {
            Some(prompt) => prompt,
            None => JsonView::Null,
        },
        None => JsonView::Null,
    }
}

/// A prompt that is forwarded becomes the active turn, for the session that it
/// names or else the one that the agent uses, and the peers are told whose turn
/// it is and the prompt as it came.
pub proof fn law_prompt_opens_a_turn(session: SessionView, peer_id: Seq<char>, req: RequestView)
    requires
        session.sound(),
        req.method == "session/prompt"@,
        session.active_turn_mux_id is None,
    ensures
        ({
            let (after, write) = session.translate_outbound_request(peer_id, req);
            let turn_id = AmuxTurnId(session.next_amux_turn_id);
            let (name, role) = labels(session, peer_id);
            &&& write is Some
            &&& after.active_turn_mux_id == Some(session.next_mux_id)
            &&& after.active_amux_turn_id == Some(turn_id)
            &&& session.next_amux_turn_id < u64::MAX ==> after.next_amux_turn_id
                == session.next_amux_turn_id + 1
            &&& after.active_turn_session_id == match req.params {
                Some(params) => match params.get("sessionId"@) {
                    Some(JsonView::String(id)) => Some(id),
                    _ => session.canonical_session_id,
                },
                None => session.canonical_session_id,
            }
            &&& after.active_turn_prompt_text == turn::prompt_text(prompt_in(req.params))
            &&& told(
                session,
                after,
                with_update(
                    session,
                    amux::turn_started_frame(
                        session.session_id,
                        turn_id,
                        peer_id,
                        name,
                        role,
                        prompt_in(req.params),
                        None,
                    ),
                    |id: Seq<char>|
                        session_update::prompt_received_frame(
                            id,
                            prompt_in(req.params),
                            peer_id,
                            name,
                        ),
                ),
            )
        }),
{
    lemma_names();
    let (after, write) = session.translate_outbound_request(peer_id, req);
    assert((after, write) == session.forward_request(peer_id, req));
    let noted = session.note_driving_subscriber(peer_id);
    let turn_id = AmuxTurnId(session.next_amux_turn_id);
    let pending = state::PendingView {
        peer_id,
        original_id: req.id,
        handshake: None,
        decorate_session_list: false,
        deliver_response: true,
        queue_item_id: None,
    };
    let opened = SessionView {
        next_mux_id: state::bump(session.next_mux_id),
        next_amux_turn_id: state::bump(session.next_amux_turn_id),
        pending: assoc::store(session.pending, session.next_mux_id, pending),
        active_turn_mux_id: Some(session.next_mux_id),
        active_amux_turn_id: Some(turn_id),
        active_turn_session_id: after.active_turn_session_id,
        active_turn_prompt_text: after.active_turn_prompt_text,
        ..noted
    };
    let params = opened.outgoing_params(peer_id, session.next_mux_id, Some(turn_id), req.params);
    let (name, role) = labels(session, peer_id);
    marking::law_passed_on_request_says_whose_it_is(
        TraceView {
            peer_id,
            peer_name: name,
            role,
            mux_id: session.next_mux_id,
            amux_turn_id: Some(turn_id),
        },
        req.params,
    );
    assert(JsonView::object().get("prompt"@) is None);
    assert(prompt_in(params) == prompt_in(req.params));
    assert(after == opened.emit_turn_started(peer_id, turn_id, params, None));
    lemma_start_is_told(opened, peer_id, turn_id, params, None);
    assert(told(opened, after, started_frames(opened, peer_id, turn_id, params, None)));
}

/// What the peers are told of a turn that starts.
pub open spec fn started_frames(
    session: SessionView,
    peer_id: Seq<char>,
    turn_id: AmuxTurnId,
    params: Option<JsonView>,
    supersedes: Option<AmuxTurnId>,
) -> Seq<Seq<u8>> {
    let (name, role) = labels(session, peer_id);
    with_update(
        session,
        amux::turn_started_frame(
            session.session_id,
            turn_id,
            peer_id,
            name,
            role,
            prompt_in(params),
            supersedes,
        ),
        |id: Seq<char>|
            session_update::prompt_received_frame(id, prompt_in(params), peer_id, name),
    )
}

/// The start of a turn is told as it is.
pub proof fn lemma_start_is_told(
    session: SessionView,
    peer_id: Seq<char>,
    turn_id: AmuxTurnId,
    params: Option<JsonView>,
    supersedes: Option<AmuxTurnId>,
)
    ensures
        told(
            session,
            session.emit_turn_started(peer_id, turn_id, params, supersedes),
            started_frames(session, peer_id, turn_id, params, supersedes),
        ),
{
    let (name, role) = labels(session, peer_id);
    let first = json::json_text(
        amux::turn_started_frame(
            session.session_id,
            turn_id,
            peer_id,
            name,
            role,
            prompt_in(params),
            supersedes,
        ),
    );
    hearing::lemma_told_nothing(session);
    hearing::lemma_told_more(session, session, Seq::empty(), first);
    assert(Seq::empty().push(first) =~= seq![first]);
    if let Some(id) = plain_id(session) {
        let second = json::json_text(
            session_update::prompt_received_frame(id, prompt_in(params), peer_id, name),
        );
        hearing::lemma_told_more(session, session.broadcast(first), seq![first], second);
        assert(seq![first].push(second) =~= seq![first, second]);
    }
}

/// A cancellation names its request by the id that the agent knows it by. It is
/// about the peer's own request with the id that the peer gave; an id that is
/// null, or no id, or that of nothing that waits, cancels nothing.
pub proof fn law_cancel_reaches_the_agent(
    session: SessionView,
    peer_id: Seq<char>,
    bytes: Seq<u8>,
    notif: NotificationView,
    at: int,
)
    requires
        IncomingView::read(bytes) == Ok::<_, ParseErrorView>(
            IncomingView::Notification(notif),
        ),
        notif.method == "$/cancel_request"@,
        0 <= at < session.pending.len(),
        session.pending[at].1.peer_id == peer_id,
        notif.params matches Some(params) && params.get("requestId"@) == Some(
            session.pending[at].1.original_id.json(),
        ),
        !(session.pending[at].1.original_id is Null),
        forall|i: int|
            0 <= i < session.pending.len() && i != at ==> !((#[trigger] session.pending[i]).1.peer_id
                == peer_id && session.pending[i].1.original_id
                == session.pending[at].1.original_id),
    ensures
        session.handle_inbound(peer_id, bytes).0 == session,
        session.handle_inbound(peer_id, bytes).1 matches Some(frame) && exists|doc: JsonView|
            frame == #[trigger] json::json_text(doc) && telling::notifies(
                doc,
                "$/cancel_request"@,
            ) && telling::param(doc, "requestId"@) == Some(
                JsonView::Int((session.pending[at].0 as i64) as int),
            ),
{
    broadcast use json::lemma_get_field;

    lemma_names();
    let id = session.pending[at].1.original_id;
    crate::protocol::jsonrpc::law_id_round_trip(id);
    laws::law_cancel_only_own(session, peer_id, notif);
    assert(inbound::cancel_target(notif.params) == Some(id));
    let doc = inbound::cancel_request_frame(state::wire_id(session.pending[at].0));
    assert(telling::notifies(doc, "$/cancel_request"@));
}

/// A peer that cancels the active turn makes the agent stop what the turn's
/// session is doing, and the peers are told who cancelled whose turn, and why.
/// Where no turn is active, nothing happens.
pub proof fn law_anybody_cancels_the_active_turn(
    session: SessionView,
    peer_id: Seq<char>,
    bytes: Seq<u8>,
    notif: NotificationView,
)
    requires
        IncomingView::read(bytes) == Ok::<_, ParseErrorView>(
            IncomingView::Notification(notif),
        ),
        notif.method == "amux/cancel_active_turn"@,
        session.sound(),
    ensures
        ({
            let (after, write) = session.handle_inbound(peer_id, bytes);
            match (session.active_turn_mux_id, session.active_turn_session_id) {
                (Some(mux_id), Some(session_id)) => {
                    &&& write matches Some(frame) && exists|doc: JsonView|
                        frame == #[trigger] json::json_text(doc) && telling::notifies(
                            doc,
                            "session/cancel"@,
                        ) && telling::param(doc, "sessionId"@) == Some(
                            JsonView::String(session_id),
                        )
                    &&& told(
                        session,
                        after,
                        seq![
                            json::json_text(
                                amux::turn_cancelled_frame(
                                    session.session_id,
                                    session.active_amux_turn_id->0,
                                    peer_id,
                                    assoc::lookup(session.pending, mux_id)->0.peer_id,
                                    match notif.params {
                                        Some(params) => match params.get("reason"@) {
                                            Some(JsonView::String(reason)) => Some(reason),
                                            _ => None,
                                        },
                                        None => None,
                                    },
                                ),
                            ),
                        ],
                    )
                    &&& after.active_turn_mux_id == session.active_turn_mux_id
                    &&& after.pending == session.pending
                    &&& after.queued_prompts == session.queued_prompts
                },
                _ => write is None && after == session,
            }
        }),
{
    broadcast use json::lemma_get_field;

    lemma_names();
    if let (Some(mux_id), Some(session_id)) = (
        session.active_turn_mux_id,
        session.active_turn_session_id,
    ) {
        let doc = control::session_cancel_frame(session_id);
        assert(telling::notifies(doc, "session/cancel"@));
        let reason = match notif.params {
            Some(params) => match params.get("reason"@) {
                Some(JsonView::String(reason)) => Some(reason),
                _ => None,
            },
            None => None,
        };
        let frame = json::json_text(
            amux::turn_cancelled_frame(
                session.session_id,
                session.active_amux_turn_id->0,
                peer_id,
                assoc::lookup(session.pending, mux_id)->0.peer_id,
                reason,
            ),
        );
        hearing::lemma_told_nothing(session);
        hearing::lemma_told_more(session, session, Seq::empty(), frame);
        assert(Seq::empty().push(frame) =~= seq![frame]);
    }
}

/// What the agent says that is not for one peer goes to every peer byte for byte:
/// a notification other than `$/cancel_request`, and whatever is no JSON-RPC
/// envelope. It is recorded, and changes nothing else.
pub proof fn law_agent_is_heard_by_everybody(session: SessionView, line: Seq<u8>)
    requires
        match IncomingView::read(line) {
            Err(_) => true,
            Ok(IncomingView::Notification(notif)) => notif.method != "$/cancel_request"@,
            _ => false,
        },
    ensures
        ({
            let (after, action) = session.handle_agent_line(line);
            &&& told(session, after, seq![line])
            &&& action.writes_to_agent.len() == 0
            &&& after == (SessionView {
                subscribers: after.subscribers,
                replay_log: after.replay_log,
                next_replay_seq: after.next_replay_seq,
                outbox: after.outbox,
                ..session
            })
        }),
{
    hearing::lemma_told_nothing(session);
    hearing::lemma_told_more(session, session, Seq::empty(), line);
    assert(Seq::empty().push(line) =~= seq![line]);
}

/// A request that the agent takes back waits no longer. The peers get the
/// agent's own line, and are told that the agent settled it; a cancellation that
/// names nothing is dropped.
pub proof fn law_agent_takes_its_request_back(
    session: SessionView,
    line: Seq<u8>,
    notif: NotificationView,
    id: IdView,
    other: IdView,
)
    requires
        IncomingView::read(line) == Ok::<_, ParseErrorView>(
            IncomingView::Notification(notif),
        ),
        notif.method == "$/cancel_request"@,
        notif.params matches Some(params) && params.get("requestId"@) == Some(id.json()),
        !(id is Null),
    ensures
        ({
            let (after, action) = session.handle_agent_line(line);
            let waits = assoc::lookup(session.agent_pending, id) == Some(AgentReqState::InFlight);
            &&& action.writes_to_agent.len() == 0
            &&& told(
                session,
                after,
                seq![
                    line,
                    json::json_text(
                        amux::agent_request_resolved_frame(
                            session.session_id,
                            id.json(),
                            "agent:cancelled"@,
                            None,
                            None,
                        ),
                    ),
                ],
            )
            &&& assoc::lookup(after.agent_pending, other) == if other == id && waits {
                Some(AgentReqState::Consumed)
            } else {
                assoc::lookup(session.agent_pending, other)
            }
            &&& after.pending_permission_frames == if waits {
                others(session.pending_permission_frames, id)
            } else {
                session.pending_permission_frames
            }
            &&& after.pending == session.pending
            &&& after.active_turn_mux_id == session.active_turn_mux_id
        }),
{
    crate::protocol::jsonrpc::law_id_round_trip(id);
    lemma_others(session.pending_permission_frames, id);
    assoc::lemma_store(session.agent_pending, id, AgentReqState::Consumed, other);
    let frame = json::json_text(
        amux::agent_request_resolved_frame(
            session.session_id,
            id.json(),
            "agent:cancelled"@,
            None,
            None,
        ),
    );
    let back = match assoc::lookup(session.agent_pending, id) {
        Some(AgentReqState::InFlight) => session.consume(id),
        _ => session,
    };
    hearing::lemma_told_nothing(back);
    hearing::lemma_told_more(back, back, Seq::empty(), line);
    assert(Seq::empty().push(line) =~= seq![line]);
    hearing::lemma_told_more(back, back.broadcast(line), seq![line], frame);
    assert(seq![line].push(frame) =~= seq![line, frame]);
}

/// A request of the agent that is not blocked is put to every peer byte for byte,
/// and waits for its reply. The log keeps a notice of it instead, which the peers
/// hear first. One that asks for a permission is kept, to be asked again of
/// whoever attaches.
pub proof fn law_agent_request_is_put_to_everybody(
    session: SessionView,
    line: Seq<u8>,
    req: RequestView,
    other: IdView,
)
    requires
        IncomingView::read(line) == Ok::<_, ParseErrorView>(
            IncomingView::Request(req),
        ),
        session.client_tool_policy.mode_of(req.method) != Some(ClientToolMode::Block),
        session.subscribers.len() > 0,
    ensures
        ({
            let (after, action) = session.handle_agent_line(line);
            let notice = json::json_text(
                amux::agent_request_opened_frame(
                    session.session_id,
                    req.id.json(),
                    req.method,
                    req.params,
                    session.active_amux_turn_id,
                ),
            );
            let peers = open_peers(session.subscribers);
            &&& action.writes_to_agent.len() == 0
            &&& after.outbox == session.outbox + round(peers, notice) + round(peers, line)
            &&& hearing::logged(
                session.replay_log,
                after.replay_log,
                seq![notice],
                session.clock,
            )
            &&& after.subscribers == peers
            &&& assoc::lookup(after.agent_pending, other) == if other == req.id {
                Some(AgentReqState::InFlight)
            } else {
                assoc::lookup(session.agent_pending, other)
            }
            &&& after.pending_permission_frames == if req.method == "session/request_permission"@ {
                others(session.pending_permission_frames, req.id).push(
                    PermissionView { id: req.id, frame: line },
                )
            } else {
                session.pending_permission_frames
            }
            &&& after.pending == session.pending
            &&& after.queued_prompts == session.queued_prompts
            &&& after.active_turn_mux_id == session.active_turn_mux_id
        }),
{
    lemma_others(session.pending_permission_frames, req.id);
    assoc::lemma_store(session.agent_pending, req.id, AgentReqState::InFlight, other);
    let notice = json::json_text(
        amux::agent_request_opened_frame(
            session.session_id,
            req.id.json(),
            req.method,
            req.params,
            session.active_amux_turn_id,
        ),
    );
    let noted = SessionView {
        agent_pending: assoc::store(session.agent_pending, req.id, AgentReqState::InFlight),
        ..session
    };
    hearing::lemma_told_nothing(noted);
    hearing::lemma_told_more(noted, noted, Seq::empty(), notice);
    assert(Seq::empty().push(notice) =~= seq![notice]);
    let once = noted.broadcast(notice);
    hearing::lemma_told_nothing(once);
    hearing::lemma_told_more(once, once, Seq::empty(), line);
    assert(Seq::empty().push(line) =~= seq![line]);
    lemma_one_round(open_peers(session.subscribers), notice);
    lemma_one_round(open_peers(session.subscribers), line);
    lemma_open_again(session.subscribers);
}

proof fn lemma_one_round(
    peers: Seq<(Seq<char>, crate::multiplex::subscriber::SubscriberView)>,
    frame: Seq<u8>,
)
    ensures
        rounds(peers, seq![frame]) == round(peers, frame),
{
    reveal_with_fuel(rounds, 2);
    assert(seq![frame].drop_last() =~= Seq::empty());
    assert(rounds(peers, seq![frame]) =~= round(peers, frame));
}

proof fn lemma_open_again(
    subscribers: Seq<(Seq<char>, crate::multiplex::subscriber::SubscriberView)>,
)
    ensures
        open_peers(open_peers(subscribers)) == open_peers(subscribers),
    decreases subscribers.len(),
{
    reveal(Seq::filter);
    if subscribers.len() > 0 {
        let front = open_peers(subscribers.drop_last());
        lemma_open_again(subscribers.drop_last());
        if subscribers.last().1.open {
            assert(front.push(subscribers.last()).drop_last() =~= front);
        }
    }
}

/// A request of the agent that comes while nobody is attached waits for nothing:
/// it is dropped.
pub proof fn law_agent_request_to_nobody_is_dropped(
    session: SessionView,
    line: Seq<u8>,
    req: RequestView,
)
    requires
        IncomingView::read(line) == Ok::<_, ParseErrorView>(
            IncomingView::Request(req),
        ),
        session.client_tool_policy.mode_of(req.method) != Some(ClientToolMode::Block),
        session.subscribers.len() == 0,
    ensures
        session.handle_agent_line(line).0 == session,
        session.handle_agent_line(line).1.writes_to_agent.len() == 0,
{
}

/// An answer of the agent to nothing that waits is dropped, and changes nothing.
pub proof fn law_answer_to_nothing_is_dropped(
    session: SessionView,
    line: Seq<u8>,
    resp: ResponseView,
)
    requires
        IncomingView::read(line) == Ok::<_, ParseErrorView>(
            IncomingView::Response(resp),
        ),
        match resp.id {
            IdView::Number(n) => n < 0 || !assoc::holds(session.pending, n as u64),
            _ => true,
        },
    ensures
        session.handle_agent_line(line).0 == session,
        session.handle_agent_line(line).1.writes_to_agent.len() == 0,
{
}

/// A client tool that is blocked is refused at once: the agent gets an error under
/// the id of its request that names the method and the policy, and nobody else
/// hears anything.
pub proof fn law_blocked_tool_is_refused(session: SessionView, line: Seq<u8>, req: RequestView)
    requires
        IncomingView::read(line) == Ok::<_, ParseErrorView>(
            IncomingView::Request(req),
        ),
        session.client_tool_policy.mode_of(req.method) == Some(ClientToolMode::Block),
    ensures
        session.handle_agent_line(line).0 == session,
        ({
            let writes = session.handle_agent_line(line).1.writes_to_agent;
            &&& writes.len() == 1
            &&& exists|error: ErrorView| #[trigger]
                refuses(writes[0], req.id, error) && error.code == -32000 && error.message
                    == "client tool request blocked by acp-mux policy: "@ + req.method
                    && error.data is Some && error.data->0.get("method"@) == Some(JsonView::String(req.method))
                    && error.data->0.get("policy"@) == Some(JsonView::String("block"@))
                    && error.data->0.get("reason"@) == Some(
                    JsonView::String("client_tool_blocked"@),
                )
        }),
{
    broadcast use json::lemma_get_field;

    lemma_names();
    let response = agent::blocked_response(req.id, req.method);
    let error = response.error->0;
    let writes = session.handle_agent_line(line).1.writes_to_agent;
    assert(response == (ResponseView { id: req.id, result: None, error: Some(error) }));
    assert(refuses(writes[0], req.id, error));
    let data = error.data->0;
    assert(data.get("method"@) == Some(JsonView::String(req.method)));
    assert(data.get("policy"@) == Some(JsonView::String("block"@)));
    assert(data.get("reason"@) == Some(JsonView::String("client_tool_blocked"@)));
}

/// Whether a frame is the answer to a request, with the given error.
pub open spec fn refuses(frame: Seq<u8>, id: IdView, error: ErrorView) -> bool {
    frame == json::json_text(ResponseView { id, result: None, error: Some(error) }.json())
}

/// What the agent gets of the parameters of a request: those that were sent, for
/// `initialize` without what is blocked, and where the session passes that on, with
/// the trace of who sent it.
pub proof fn law_agent_gets_the_parameters(
    session: SessionView,
    peer_id: Seq<char>,
    bytes: Seq<u8>,
    req: RequestView,
)
    requires
        IncomingView::read(bytes) == Ok::<_, ParseErrorView>(
            IncomingView::Request(req),
        ),
        !for_the_mux(session, req.method),
    ensures
        ({
            let (after, write) = session.handle_inbound(peer_id, bytes);
            let sent = if req.method == "initialize"@ {
                inbound::sanitized(session.client_tool_policy, req.params)
            } else {
                req.params
            };
            let peer = assoc::lookup(session.subscribers, peer_id);
            let trace = TraceView {
                peer_id,
                peer_name: match peer {
                    Some(peer) => peer.peer_name,
                    None => None,
                },
                role: match peer {
                    Some(peer) => peer.role,
                    None => None,
                },
                mux_id: session.next_mux_id,
                amux_turn_id: if req.method == "session/prompt"@ {
                    Some(AmuxTurnId(session.next_amux_turn_id))
                } else {
                    None
                },
            };
            &&& write == Some(
                json::json_text(
                    RequestView {
                        id: IdView::Number(session.next_mux_id as i64),
                        method: req.method,
                        params: if session.meta_propagate {
                            trace.traced(sent)
                        } else {
                            sent
                        },
                    }.json(),
                ),
            )
            &&& req.method == "initialize"@ ==> after.driving_subscriber_peer_id
                == session.driving_subscriber_peer_id && after.index == session.index
        }),
{
    lemma_names();
    assert(session.handle_inbound(peer_id, bytes) == session.forward_request(peer_id, req));
}

/// A prompt that comes while a turn is active is refused: everybody hears that the
/// session is busy and with whose turn, and the peer that sent it gets an error.
pub proof fn law_busy_is_told(
    session: SessionView,
    peer_id: Seq<char>,
    bytes: Seq<u8>,
    req: RequestView,
    mux_id: u64,
)
    requires
        session.sound(),
        session.active_turn_mux_id == Some(mux_id),
        IncomingView::read(bytes) == Ok::<_, ParseErrorView>(
            IncomingView::Request(req),
        ),
        req.method == "session/prompt"@,
    ensures
        ({
            let (after, write) = session.handle_inbound(peer_id, bytes);
            let busy = json::json_text(
                amux::session_busy_frame(
                    session.session_id,
                    true,
                    match assoc::lookup(session.pending, mux_id) {
                        Some(pending) => Some(pending.peer_id),
                        None => None,
                    },
                ),
            );
            &&& write is None
            &&& after.outbox == session.outbox + round(open_peers(session.subscribers), busy)
                + hearing::only_to(
                session,
                peer_id,
                OutMsgView::Frame(
                    json::json_text(
                        ResponseView {
                            id: req.id,
                            result: None,
                            error: Some(
                                ErrorView {
                                    code: (-32001) as i64,
                                    message: "session busy: another turn is in flight"@,
                                    data: None,
                                },
                            ),
                        }.json(),
                    ),
                ),
            )
            &&& hearing::logged(session.replay_log, after.replay_log, seq![busy], session.clock)
        }),
{
    lemma_names();
    let busy = json::json_text(
        amux::session_busy_frame(session.session_id, true, session.turn_owner(mux_id)),
    );
    hearing::lemma_told_nothing(session);
    hearing::lemma_told_more(session, session, Seq::empty(), busy);
    assert(Seq::empty().push(busy) =~= seq![busy]);
    let spoken = session.broadcast(busy);
    let message = OutMsgView::Frame(
        json::json_text(
            ResponseView {
                id: req.id,
                result: None,
                error: Some(
                    ErrorView {
                        code: (-32001) as i64,
                        message: "session busy: another turn is in flight"@,
                        data: None,
                    },
                ),
            }.json(),
        ),
    );
    hearing::lemma_told_then(session, spoken, seq![busy], peer_id, message);
    let peers = open_peers(session.subscribers);
    reveal_with_fuel(rounds, 2);
    assert(rounds(peers, seq![busy]) =~= round(peers, busy));
    assert(session.handle_inbound(peer_id, bytes) == (
        session.reject_busy(peer_id, req.id, mux_id),
        None::<Seq<u8>>,
    ));
}

/// A remembered answer is given as it was remembered, and nothing else happens; but
/// who asks for the session drives it from then on.
pub proof fn law_remembered_answers_are_given(
    session: SessionView,
    peer_id: Seq<char>,
    bytes: Seq<u8>,
    req: RequestView,
    known: JsonView,
)
    requires
        session.reachable(peer_id),
        IncomingView::read(bytes) == Ok::<_, ParseErrorView>(
            IncomingView::Request(req),
        ),
        req.method == "initialize"@ && session.initialize_cache == Some(known) || req.method
            == "session/new"@ && session.session_new_cache == Some(known),
    ensures
        ({
            let (after, write) = session.handle_inbound(peer_id, bytes);
            &&& write is None
            &&& after == (SessionView {
                outbox: session.outbox.push(
                    DeliveryView {
                        peer_id,
                        message: OutMsgView::Frame(
                            json::json_text(
                                ResponseView {
                                    id: req.id,
                                    result: Some(known),
                                    error: None,
                                }.json(),
                            ),
                        ),
                    },
                ),
                driving_subscriber_peer_id: if req.method == "initialize"@ {
                    session.driving_subscriber_peer_id
                } else {
                    Some(peer_id)
                },
                index: after.index,
                ..session
            })
            &&& req.method == "initialize"@ ==> after.index == session.index
        }),
{
    lemma_names();
}

} // verus!

//! The course of a session: how it begins, what ends it, and what a load makes of
//! it.

use crate::assoc;
use crate::cli::{ClientToolPolicy, ReplayTurns};
use crate::json;
use crate::json::JsonView;
use crate::multiplex::subscriber::{DeliveryView, OutMsgView, SubscriberView};
use crate::protocol::amux;
use crate::protocol::jsonrpc::{ErrorView, IdView, ResponseView};
use crate::session::actor::{ActorView, ExitReason, MsgView, TtlTimer};
use crate::session::agent;
use crate::session::hearing;
use crate::session::hearing::open_peers;
use crate::session::life;
use crate::session::life::RunView;
use crate::session::laws;
use crate::session::load;
use crate::session::metadata::IndexView;
use crate::session::showing;
use crate::session::state;
use crate::session::state::{AttachError, PendingView, ReplayEntryView, SessionView};
use vstd::prelude::*;

verus! {

/// A session begins with its first peer and nothing else: no request is on its way,
/// no turn is active, nothing waits, no answer is remembered, and every number is
/// given out for the first time. Frames are kept unless that is switched off.
pub proof fn law_session_begins_with_its_first_peer(
    session_id: Seq<char>,
    replay_policy: ReplayTurns,
    meta_propagate: bool,
    client_tool_policy: ClientToolPolicy,
    agent_cwd: Seq<char>,
    index: IndexView,
    first: SubscriberView,
    clock: Seq<char>,
)
    requires
        first.open,
    ensures
        ({
            let actor = ActorView::start(
                session_id,
                replay_policy,
                meta_propagate,
                client_tool_policy,
                agent_cwd,
                index,
                first,
                clock,
            );
            let session = actor.inner;
            let context = json::json_text(amux::session_context_frame(session_id, agent_cwd));
            let joined = json::json_text(
                amux::peer_joined_frame(session_id, first.peer_id, first.peer_name, first.role),
            );
            &&& !actor.ttl_pending
            &&& session.session_id == session_id
            &&& session.agent_cwd == agent_cwd
            &&& session.meta_propagate == meta_propagate
            &&& session.client_tool_policy == client_tool_policy
            &&& session.index == index
            &&& session.subscribers == seq![(first.peer_id, first)]
            &&& session.outbox == seq![
                DeliveryView { peer_id: first.peer_id, message: OutMsgView::Frame(context) },
            ]
            &&& session.canonical_session_id is None && session.initialize_cache is None
                && session.session_new_cache is None
            &&& session.driving_subscriber_peer_id is None
            &&& session.active_turn_mux_id is None && session.active_amux_turn_id is None
                && session.active_turn_session_id is None && session.active_turn_prompt_text is None
            &&& session.pending.len() == 0 && session.agent_pending.len() == 0
                && session.queued_prompts.len() == 0 && session.pending_permission_frames.len()
                == 0
            &&& session.next_mux_id == 1 && session.next_amux_turn_id == 1
                && session.next_queue_item_id == 1
            &&& session.replay_generation == 0 && session.last_replay_reset is None
            &&& replay_policy == ReplayTurns::Disabled ==> session.replay_log is None
            &&& replay_policy != ReplayTurns::Disabled ==> session.replay_log == Some(
                seq![ReplayEntryView { frame: joined, recorded_at: clock, seq: 1 }],
            )
        }),
{
    let fresh = SessionView {
        clock,
        ..SessionView::new(
            session_id,
            agent_cwd,
            replay_policy,
            meta_propagate,
            client_tool_policy,
            index,
        )
    };
    assert(!assoc::holds(fresh.subscribers, first.peer_id));
    let (after, _) = fresh.attach(first);
    let joined = json::json_text(
        amux::peer_joined_frame(session_id, first.peer_id, first.peer_name, first.role),
    );
    let heard = fresh.broadcast(joined);
    assert(state::live(fresh.subscribers) =~= Seq::empty());
    assert(heard.subscribers =~= Seq::empty());
    assert(heard.outbox =~= Seq::empty());
    assoc::lemma_store(heard.subscribers, first.peer_id, first, first.peer_id);
    assert(after.subscribers =~= seq![(first.peer_id, first)]);
    assert(crate::session::attach::replay_frames(fresh.replay_log) =~= Seq::empty());
    assert(after.reachable(first.peer_id));
    assert(after.outbox =~= seq![
        DeliveryView {
            peer_id: first.peer_id,
            message: OutMsgView::Frame(
                json::json_text(amux::session_context_frame(session_id, agent_cwd)),
            ),
        },
    ]);
    if replay_policy != ReplayTurns::Disabled {
        assert(after.replay_log->0 =~= seq![
            ReplayEntryView { frame: joined, recorded_at: clock, seq: 1 },
        ]);
    }
}

/// What ends a session, and with which reason: the death of its agent, the end of
/// its channel, its time running out while nobody is attached, and a line of the
/// agent that loses its last peer. Nothing else does.
pub proof fn law_what_ends_a_session(actor: ActorView, msg: MsgView)
    ensures
        ({
            let (after, step) = actor.step(msg);
            &&& msg is AgentDied ==> step.exit == Some(ExitReason::AgentDied)
            &&& msg is ChannelClosed ==> step.exit == Some(ExitReason::ChannelClosed)
            &&& msg is TtlElapsed ==> step.exit == if actor.inner.subscribers.len() == 0 {
                Some(ExitReason::TtlExpired)
            } else {
                None
            }
            &&& msg is AgentStdoutLine && step.exit is Some ==> step.exit == Some(
                ExitReason::LastSubscriberLeft,
            )
            &&& msg is Attach || msg is Detach || msg is InboundFromSubscriber || msg is Snapshot
                ==> step.exit is None
            &&& msg is AgentDied || msg is ChannelClosed || msg is TtlElapsed || msg is Snapshot
                ==> after.inner == actor.inner && step.writes_to_agent.len() == 0
        }),
{
}

/// Whoever wants to attach, and nobody else, is told how it went. Attaching stops
/// the timer, and the last one to leave starts it.
pub proof fn law_who_attaches_is_answered(actor: ActorView, msg: MsgView)
    ensures
        ({
            let (after, step) = actor.step(msg);
            &&& step.attached is Some <==> msg is Attach
            &&& msg matches MsgView::Attach { subscriber } ==> {
                let taken = exists|i: int|
                    0 <= i < actor.inner.subscribers.len() && (
                    #[trigger] actor.inner.subscribers[i]).0 == subscriber.peer_id;
                &&& taken ==> step.attached == Some(
                    Err::<(), AttachError>(AttachError::PeerIdInUse),
                ) && after == actor && step.timer == TtlTimer::Keep
                &&& !taken ==> step.attached == Some(Ok::<(), AttachError>(())) && step.timer
                    == TtlTimer::Stop && !after.ttl_pending
            }
            &&& msg is Detach ==> step.timer == if after.inner.subscribers.len() == 0 {
                TtlTimer::Start
            } else {
                TtlTimer::Keep
            }
            &&& msg is Detach || msg is Attach || msg is Snapshot ==> step.writes_to_agent.len()
                == 0
        }),
{
    if let MsgView::Attach { subscriber } = msg {
        assoc::lemma_index_of(actor.inner.subscribers, subscriber.peer_id);
        let at = assoc::index_of(actor.inner.subscribers, subscriber.peer_id);
        if assoc::holds(actor.inner.subscribers, subscriber.peer_id) {
            assert(actor.inner.subscribers[at].0 == subscriber.peer_id);
        }
    }
    if let MsgView::Detach { peer_id } = msg {
        laws::law_session_ends_of_age_only_when_empty(actor, msg);
    }
}

/// A session that is over has no peers and shows in no index. Where its agent died,
/// every peer that can be reached is told so, and otherwise nobody is told anything.
pub proof fn law_session_that_is_over_is_gone(actor: ActorView, reason: ExitReason, id: Seq<char>)
    requires
        actor.inner.index.sound(),
    ensures
        ({
            let over = actor.finish(reason).inner;
            let peers = open_peers(actor.inner.subscribers);
            &&& over.subscribers.len() == 0
            &&& actor.inner.canonical_session_id == Some(id) ==> !(over.index.get(
                id,
            ) matches Some(entry) && entry.proxy_session_id == actor.inner.session_id)
            &&& reason != ExitReason::AgentDied ==> over.outbox == actor.inner.outbox
            &&& reason == ExitReason::AgentDied ==> over.outbox == actor.inner.outbox + Seq::new(
                peers.len(),
                |i: int|
                    DeliveryView {
                        peer_id: peers[i].0,
                        message: OutMsgView::Close {
                            code: 1011,
                            reason: "agent subprocess exited"@,
                        },
                    },
            )
            &&& over == (SessionView {
                subscribers: over.subscribers,
                index: over.index,
                outbox: over.outbox,
                ..actor.inner
            })
        }),
{
    hearing::lemma_live_is_open(actor.inner.subscribers);
    showing::law_index_shows_the_session(actor.inner, id);
    let peers = open_peers(actor.inner.subscribers);
    let closed = actor.inner.close_all_subscribers(1011, "agent subprocess exited"@);
    showing::law_index_shows_the_session(closed, id);
    assert(state::to_each(
        peers,
        OutMsgView::Close { code: 1011, reason: "agent subprocess exited"@ },
    ) =~= Seq::new(
        peers.len(),
        |i: int|
            DeliveryView {
                peer_id: peers[i].0,
                message: OutMsgView::Close { code: 1011, reason: "agent subprocess exited"@ },
            },
    ));
}

/// The agent of a session that is over has two seconds to exit by itself.
pub proof fn law_agent_has_time_to_exit(run: RunView, now: Seq<char>, msg: MsgView)
    ensures
        run.advance(now, msg).1.shutdown matches Some(shutdown) ==> shutdown.timeout_ms == 2000,
{
}

/// A load keeps the remembered answer to `session/new` but for the session that it
/// names, and everything else that the session remembers.
pub proof fn law_load_keeps_the_rest_of_the_answer(
    session: SessionView,
    loaded: Seq<char>,
    key: Seq<char>,
)
    ensures
        ({
            let after = session.rebind_canonical_session(loaded);
            let answer = after.session_new_cache->0;
            &&& after.session_new_cache is Some
            &&& answer.get("sessionId"@) == Some(JsonView::String(loaded))
            &&& key != "sessionId"@ ==> answer.get(key) == match session.session_new_cache {
                Some(JsonView::Object(members)) => JsonView::Object(members).get(key),
                _ => None,
            }
            &&& after == (SessionView {
                session_new_cache: after.session_new_cache,
                queued_prompts: after.queued_prompts,
                ..session
            })
        }),
{
    broadcast use json::lemma_get_field;

    assert(JsonView::object().get(key) is None);
}

proof fn lemma_numbers(frames: Seq<Seq<u8>>, recorded_at: Seq<char>, first: u64)
    requires
        first + frames.len() < u64::MAX,
    ensures
        load::numbered(frames, recorded_at, first).1 == first + frames.len(),
        forall|i: int|
            0 <= i < frames.len() ==> (#[trigger] load::numbered(frames, recorded_at, first).0[i])
                == (ReplayEntryView { frame: frames[i], recorded_at, seq: (first + i) as u64 }),
        load::numbered(frames, recorded_at, first).0.len() == frames.len(),
    decreases frames.len(),
{
    if frames.len() > 0 {
        lemma_numbers(frames.drop_last(), recorded_at, first);
    }
}

/// The peers at the front of the log after a load are told of as if they had joined
/// now, each under the next number.
pub proof fn law_presence_is_recorded_anew(session: SessionView, loaded: Seq<char>, asked_at: nat)
    requires
        session.replay_log is Some,
        session.next_replay_seq + session.subscribers.len() < u64::MAX,
    ensures
        ({
            let after = session.reset_replay_generation_after_load(loaded, asked_at);
            let kept = after.replay_log->0;
            let peers = load::by_id(session.subscribers);
            &&& after.next_replay_seq == session.next_replay_seq + session.subscribers.len()
            &&& forall|i: int|
                0 <= i < session.subscribers.len() ==> (#[trigger] kept[i]) == (ReplayEntryView {
                    frame: json::json_text(
                        amux::peer_joined_frame(
                            session.session_id,
                            peers[i].peer_id,
                            peers[i].peer_name,
                            peers[i].role,
                        ),
                    ),
                    recorded_at: session.clock,
                    seq: (session.next_replay_seq + i) as u64,
                })
        }),
{
    let peers = load::by_id(session.subscribers);
    let frames = load::presence_frames(session.session_id, peers);
    laws::lemma_by_id_len(session.subscribers);
    lemma_numbers(frames, session.clock, session.next_replay_seq);
}

/// A load in a session that keeps no frames drops none and keeps none; one that was
/// asked for when there were more frames than there are now drops all of them.
pub proof fn law_load_drops_no_more_than_there_is(
    session: SessionView,
    loaded: Seq<char>,
    asked_at: nat,
)
    ensures
        ({
            let after = session.reset_replay_generation_after_load(loaded, asked_at);
            &&& session.replay_log is None ==> {
                &&& after.replay_log is None
                &&& after.last_replay_reset matches Some(reset) && reset.dropped_frame_count == 0
                    && reset.retained_frame_count == 0 && reset.loaded_session_id == loaded
                    && reset.replay_generation == after.replay_generation
            }
            &&& session.replay_log matches Some(log) ==> asked_at > log.len() ==> {
                &&& after.last_replay_reset is Some
                &&& after.last_replay_reset->0.dropped_frame_count == log.len()
                &&& after.replay_log->0.len() == session.subscribers.len()
            }
        }),
{
    let frames = load::presence_frames(session.session_id, load::by_id(session.subscribers));
    laws::lemma_by_id_len(session.subscribers);
    laws::lemma_numbered_frames(frames, session.clock, session.next_replay_seq);
}

/// Whom the answer to a request reaches, and as what: the peer that asked, under its
/// own id, with the result or the error that the agent gave. Only a list of sessions
/// is shown with what the index knows.
pub proof fn law_answer_is_as_the_agent_gave_it(
    session: SessionView,
    mux_id: u64,
    pending: PendingView,
    result: Option<JsonView>,
    error: Option<ErrorView>,
)
    requires
        session.sound(),
        mux_id <= i64::MAX,
        assoc::lookup(session.pending, mux_id) == Some(pending),
        session.active_turn_mux_id != Some(mux_id),
        pending.handshake is None,
    ensures
        ({
            let (after, write) = session.route_agent_response(
                ResponseView { id: IdView::Number(mux_id as i64), result, error },
            );
            let answer = OutMsgView::Frame(
                json::json_text(
                    ResponseView {
                        id: pending.original_id,
                        result: match result {
                            Some(given) => Some(
                                if pending.decorate_session_list {
                                    session.index.decorated_list(given)
                                } else {
                                    given
                                },
                            ),
                            None => None,
                        },
                        error,
                    }.json(),
                ),
            );
            &&& write is None
            &&& after == (SessionView {
                pending: assoc::erase(session.pending, mux_id),
                outbox: if pending.deliver_response {
                    session.outbox + hearing::only_to(session, pending.peer_id, answer)
                } else {
                    session.outbox
                },
                ..session
            })
        }),
{
    let resp = ResponseView { id: IdView::Number(mux_id as i64), result, error };
    assert(agent::answered(resp.id) == Some(mux_id));
    let settled = SessionView { pending: assoc::erase(session.pending, mux_id), ..session };
    let answer = OutMsgView::Frame(
        json::json_text(
            ResponseView {
                id: pending.original_id,
                result: match result {
                    Some(given) => Some(
                        if pending.decorate_session_list {
                            session.index.decorated_list(given)
                        } else {
                            given
                        },
                    ),
                    None => None,
                },
                error,
            }.json(),
        ),
    );
    hearing::lemma_reach(settled, pending.peer_id, answer);
}

} // verus!

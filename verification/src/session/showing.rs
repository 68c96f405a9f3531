//! What a peer is shown of a session when it comes, asks or goes, and what the
//! session remembers and shows of itself.

use crate::assoc;
use crate::json;
use crate::json::{JsonView, ToJson};
use crate::multiplex::subscriber::{DeliveryView, OutMsgView, SubscriberView};
use crate::protocol::amux;
use crate::protocol::answers;
use crate::protocol::attach::{
    AttachParamsView, BaselineAttachResult, BaselineAttachResultView, ConnectedClientView,
    DetachParams, DetachResult, DetachResultView, HistoryEntryView, HistoryPolicy,
};
use crate::protocol::jsonrpc::{IdView, RequestView, ResponseView};
use crate::protocol::names::lemma_names;
use crate::protocol::session_update;
use crate::session::agent;
use crate::session::attach;
use crate::session::hearing;
use crate::session::hearing::{only_to, open_peers, round, told};
use crate::session::laws;
use crate::session::load;
use crate::session::metadata;
use crate::session::metadata::MetadataView;
use crate::session::passing;
use crate::session::passing::plain_id;
use crate::session::snapshot;
use crate::session::snapshot::{SessionSnapshot, SubscriberSnapshot, SubscriberSnapshotView};
use crate::session::sound;
use crate::session::state;
use crate::session::state::{
    AttachError, HandshakeView, QueuedPromptView, ReplayEntryView, ReplayResetSnapshot,
    ReplayResetView, SessionView,
};
use crate::session::working;
use crate::session::working::{error_answer, result_answer};
use crate::text;
use vstd::prelude::*;

verus! {

/// The method of a frame, where it has one.
pub open spec fn method_of(frame: Seq<u8>) -> Option<Seq<char>> {
    match json::json_document(frame) {
        Some(document) => match document.get("method"@) {
            Some(JsonView::String(method)) => Some(method),
            _ => None,
        },
        None => None,
    }
}

/// Whether an entry of a history is that of a frame: it has the method of the
/// frame, and its parameters as they are, or null where it has none.
pub open spec fn tells_of(entry: HistoryEntryView, frame: Seq<u8>) -> bool {
    &&& method_of(frame) == Some(entry.method)
    &&& entry.params == match json::json_document(frame)->0.get("params"@) {
        Some(params) => params,
        None => JsonView::Null,
    }
}

/// A history has one entry for each frame that has a method, in the order of the
/// frames: that of some frames followed by others is that of the ones followed by
/// that of the others, and one frame has one entry or none.
pub proof fn law_history_has_every_frame(
    front: Seq<Seq<u8>>,
    back: Seq<Seq<u8>>,
    frame: Seq<u8>,
)
    ensures
        attach::history_of(front + back) == attach::history_of(front) + attach::history_of(back),
        attach::history_of(Seq::empty()).len() == 0,
        ({
            let one = attach::history_of(seq![frame]);
            &&& method_of(frame) is Some ==> one.len() == 1 && tells_of(one[0], frame)
            &&& method_of(frame) is None ==> one.len() == 0
        }),
{
    lemma_history_joins(front, back);
    reveal_with_fuel(attach::history_of, 2);
    assert(seq![frame].drop_last() =~= Seq::empty());
}

proof fn lemma_history_joins(front: Seq<Seq<u8>>, back: Seq<Seq<u8>>)
    ensures
        attach::history_of(front + back) == attach::history_of(front) + attach::history_of(back),
    decreases back.len(),
{
    if back.len() > 0 {
        lemma_history_joins(front, back.drop_last());
        assert((front + back).drop_last() =~= front + back.drop_last());
        assert(attach::history_of(front + back) =~= attach::history_of(front)
            + attach::history_of(back));
    } else {
        assert(front + back =~= front);
        assert(attach::history_of(front) + Seq::<HistoryEntryView>::empty() =~= attach::history_of(
            front,
        ));
    }
}

/// Where every frame has a method, the history is as long as the list of frames,
/// and each entry is that of the frame in its place.
pub proof fn law_history_is_as_long_as_the_frames(frames: Seq<Seq<u8>>)
    requires
        forall|i: int| 0 <= i < frames.len() ==> method_of(#[trigger] frames[i]) is Some,
    ensures
        attach::history_of(frames).len() == frames.len(),
        forall|i: int|
            0 <= i < frames.len() ==> tells_of(
                #[trigger] attach::history_of(frames)[i],
                frames[i],
            ),
    decreases frames.len(),
{
    if frames.len() > 0 {
        let front = frames.drop_last();
        assert forall|i: int| 0 <= i < front.len() implies method_of(#[trigger] front[i])
            is Some by {
            assert(front[i] == frames[i]);
        }
        law_history_is_as_long_as_the_frames(front);
        assert(frames.last() == frames[frames.len() - 1]);
        assert forall|i: int| 0 <= i < frames.len() implies tells_of(
            #[trigger] attach::history_of(frames)[i],
            frames[i],
        ) by {
            if i < front.len() {
                assert(attach::history_of(front)[i] == attach::history_of(frames)[i]);
                assert(front[i] == frames[i]);
            }
        }
    }
}

/// The frames of a log as they are replayed, each in its place.
pub open spec fn replays(log: Option<Seq<ReplayEntryView>>) -> Seq<Seq<u8>> {
    match log {
        Some(log) => Seq::new(log.len(), |i: int| log[i].replayed()),
        None => Seq::empty(),
    }
}

proof fn lemma_replays(log: Option<Seq<ReplayEntryView>>)
    ensures
        attach::replay_frames(log) == replays(log),
{
    if let Some(entries) = log {
        assert(attach::replay_frames(log) =~= replays(log));
    }
}

/// The full history of a session tells of every recorded frame that has a method,
/// as it is replayed, from the first to the last. With the policy for what waits,
/// it tells of the permission requests that wait instead; with none, there is no
/// history.
pub proof fn law_history_by_policy(session: SessionView)
    ensures
        session.history(HistoryPolicy::NoHistory) is None,
        session.history(HistoryPolicy::PendingOnly) == Some(
            attach::history_of(waiting_frames(session)),
        ),
        session.history(HistoryPolicy::Full) == Some(
            attach::history_of(replays(session.replay_log)),
        ),
        session.history(HistoryPolicy::FullLineage) == session.history(HistoryPolicy::Full),
        session.history(HistoryPolicy::AfterMessage) == session.history(HistoryPolicy::Full),
        (forall|i: int|
            0 <= i < replays(session.replay_log).len() ==> method_of(
                #[trigger] replays(session.replay_log)[i],
            ) is Some) ==> session.history(HistoryPolicy::Full)->0.len() == match session.replay_log {
            Some(log) => log.len(),
            None => 0,
        },
{
    lemma_replays(session.replay_log);
    lemma_waiting_frames(session);
    if forall|i: int|
        0 <= i < replays(session.replay_log).len() ==> method_of(
            #[trigger] replays(session.replay_log)[i],
        ) is Some {
        law_history_is_as_long_as_the_frames(replays(session.replay_log));
    }
}

/// The frames of the permission requests that wait, each in its place.
pub open spec fn waiting_frames(session: SessionView) -> Seq<Seq<u8>> {
    Seq::new(
        session.pending_permission_frames.len(),
        |i: int| session.pending_permission_frames[i].frame,
    )
}

pub proof fn lemma_waiting_frames(session: SessionView)
    ensures
        attach::permission_frames(session.pending_permission_frames) == waiting_frames(session),
{
    assert(attach::permission_frames(session.pending_permission_frames) =~= waiting_frames(
        session,
    ));
}

/// Some frames, one after the other, to one peer.
pub open spec fn in_turn_to(peer_id: Seq<char>, frames: Seq<Seq<u8>>) -> Seq<DeliveryView> {
    Seq::new(
        frames.len(),
        |i: int| DeliveryView { peer_id, message: OutMsgView::Frame(frames[i]) },
    )
}

/// Frames for one peer are sent to it all, in their order, and to nobody else.
pub proof fn law_frames_for_a_peer_are_sent_in_order(
    session: SessionView,
    peer_id: Seq<char>,
    frames: Seq<Seq<u8>>,
)
    ensures
        session.send_frames_to(peer_id, frames) == (SessionView {
            outbox: if session.reachable(peer_id) {
                session.outbox + in_turn_to(peer_id, frames)
            } else {
                session.outbox
            },
            ..session
        }),
{
    assert(state::all_to(peer_id, frames) =~= in_turn_to(peer_id, frames));
}

/// The session id that requests may name a session by: the one that plain clients
/// go by, or else its own.
pub open spec fn known_as(session: SessionView) -> Seq<char> {
    match plain_id(session) {
        Some(id) => id,
        None => session.session_id,
    }
}

/// Whether a request is about this session: it names none, or this one by either
/// of its ids.
pub open spec fn about_this(session: SessionView, named: Option<Seq<char>>) -> bool {
    match named {
        Some(id) => id.len() == 0 || id == known_as(session) || id == session.session_id,
        None => true,
    }
}

/// Who is attached, in the order in which they came.
pub open spec fn roster(session: SessionView) -> Seq<ConnectedClientView> {
    Seq::new(
        session.subscribers.len(),
        |i: int|
            ConnectedClientView {
                client_id: session.subscribers[i].1.peer_id,
                name: session.subscribers[i].1.peer_name,
            },
    )
}

pub proof fn lemma_roster(session: SessionView)
    ensures
        attach::clients_of(session.subscribers) == roster(session),
{
    assert(attach::clients_of(session.subscribers) =~= roster(session));
}

/// A peer that asks to attach is answered with the session, its client id, the
/// policy that is applied, everybody who is attached, and the history that the
/// policy asks for. After the answer it gets every permission request that waits,
/// in order. Nobody else hears of it, and nothing changes.
pub proof fn law_attach_is_answered(session: SessionView, peer_id: Seq<char>, req: RequestView)
    requires
        session.sound(),
        session.reachable(peer_id),
        about_this(session, AttachParamsView::of_request(req.params).session_id),
    ensures
        ({
            let asked = AttachParamsView::of_request(req.params);
            let answer = BaselineAttachResultView {
                session_id: known_as(session),
                client_id: match asked.client_id {
                    Some(id) => id,
                    None => peer_id,
                },
                history_policy: asked.policy(),
                connected_clients: roster(session),
                history: session.history(asked.policy()),
            };
            session.handle_attach(peer_id, req) == (SessionView {
                outbox: session.outbox.push(
                    DeliveryView {
                        peer_id,
                        message: result_answer(req.id, BaselineAttachResult::json_of(answer)),
                    },
                ) + in_turn_to(peer_id, waiting_frames(session)),
                ..session
            })
        }),
{
    lemma_roster(session);
    lemma_waiting_frames(session);
    let asked = AttachParamsView::of_request(req.params);
    let answer = BaselineAttachResultView {
        session_id: known_as(session),
        client_id: match asked.client_id {
            Some(id) => id,
            None => peer_id,
        },
        history_policy: asked.policy(),
        connected_clients: roster(session),
        history: session.history(asked.policy()),
    };
    let answered = session.send_result_response(
        peer_id,
        req.id,
        BaselineAttachResult::json_of(answer),
    );
    law_frames_for_a_peer_are_sent_in_order(answered, peer_id, waiting_frames(session));
}

/// A request to attach to, or detach from, another session is refused: the peer
/// gets an error, and nothing changes.
pub proof fn law_another_session_is_not_found(
    session: SessionView,
    peer_id: Seq<char>,
    req: RequestView,
)
    requires
        session.sound(),
    ensures
        ({
            let refused = SessionView {
                outbox: session.outbox + only_to(
                    session,
                    peer_id,
                    error_answer(req.id, (-32001) as i64, "session not found"@),
                ),
                ..session
            };
            &&& !about_this(session, AttachParamsView::of_request(req.params).session_id)
                ==> session.handle_attach(peer_id, req) == refused
            &&& !about_this(session, DetachParams::session_of(req.params))
                ==> session.handle_detach(peer_id, req) == refused
        }),
{
    hearing::lemma_reach(
        session,
        peer_id,
        error_answer(req.id, (-32001) as i64, "session not found"@),
    );
}

/// A peer that asks to detach is answered that it is detached, and then its
/// connection is closed.
pub proof fn law_detach_is_answered(session: SessionView, peer_id: Seq<char>, req: RequestView)
    requires
        session.reachable(peer_id),
        about_this(session, DetachParams::session_of(req.params)),
    ensures
        session.handle_detach(peer_id, req) == (SessionView {
            outbox: session.outbox.push(
                DeliveryView {
                    peer_id,
                    message: result_answer(
                        req.id,
                        DetachResult::json_of(
                            DetachResultView {
                                session_id: known_as(session),
                                status: "detached"@,
                            },
                        ),
                    ),
                },
            ).push(
                DeliveryView {
                    peer_id,
                    message: OutMsgView::Close { code: 1000, reason: "client requested detach"@ },
                },
            ),
            ..session
        }),
{
}

/// Whoever attaches gets, in this order: where the agent runs, and every recorded
/// frame as it is replayed. Those who are attached already hear who joined, and
/// the log keeps it.
pub proof fn law_who_attaches_gets_the_whole_log(session: SessionView, subscriber: SubscriberView)
    requires
        session.sound(),
        !assoc::holds(session.subscribers, subscriber.peer_id),
        subscriber.open,
    ensures
        ({
            let (after, result) = session.attach(subscriber);
            let peers = open_peers(session.subscribers);
            let joined = json::json_text(
                amux::peer_joined_frame(
                    session.session_id,
                    subscriber.peer_id,
                    subscriber.peer_name,
                    subscriber.role,
                ),
            );
            let context = json::json_text(
                amux::session_context_frame(session.session_id, session.agent_cwd),
            );
            &&& result == Ok::<(), AttachError>(())
            &&& after.subscribers == peers.push((subscriber.peer_id, subscriber))
            &&& after.outbox == session.outbox + round(peers, joined) + in_turn_to(
                subscriber.peer_id,
                seq![context] + replays(session.replay_log),
            )
            &&& hearing::logged(session.replay_log, after.replay_log, seq![joined], session.clock)
        }),
{
    laws::law_late_joiner_misses_nothing(session, subscriber);
    lemma_replays(session.replay_log);
    hearing::lemma_live_is_open(session.subscribers);
    let peers = open_peers(session.subscribers);
    let peer_id = subscriber.peer_id;
    let joined = json::json_text(
        amux::peer_joined_frame(
            session.session_id,
            peer_id,
            subscriber.peer_name,
            subscriber.role,
        ),
    );
    let context = json::json_text(
        amux::session_context_frame(session.session_id, session.agent_cwd),
    );
    assert(state::to_each(peers, OutMsgView::Frame(joined)) =~= round(peers, joined));
    assert(laws::attach_all(peer_id, context, replays(session.replay_log)) =~= in_turn_to(
        peer_id,
        seq![context] + replays(session.replay_log),
    ));
    hearing::lemma_told_nothing(session);
    hearing::lemma_told_more(session, session, Seq::empty(), joined);
    assert(Seq::empty().push(joined) =~= seq![joined]);
}

/// The prompts of a peer that wait in the queue, by their ids, in their order.
pub open spec fn waiting_of(prompts: Seq<QueuedPromptView>, peer_id: Seq<char>) -> Seq<Seq<char>> {
    prompts.filter(
        |prompt: QueuedPromptView| prompt.peer_id == peer_id && prompt.queue_item_id is Some,
    ).map_values(|prompt: QueuedPromptView| prompt.queue_item_id->0)
}

proof fn lemma_waiting_of(prompts: Seq<QueuedPromptView>, peer_id: Seq<char>)
    ensures
        attach::items_of(prompts, peer_id) == waiting_of(prompts, peer_id),
    decreases prompts.len(),
{
    reveal(Seq::filter);
    let own = |prompt: QueuedPromptView|
        prompt.peer_id == peer_id && prompt.queue_item_id is Some;
    let id = |prompt: QueuedPromptView| prompt.queue_item_id->0;
    if prompts.len() > 0 {
        let front = prompts.drop_last();
        lemma_waiting_of(front, peer_id);
        if own(prompts.last()) {
            assert(front.filter(own).push(prompts.last()).map_values(id) =~= front.filter(
                own,
            ).map_values(id).push(prompts.last().queue_item_id->0));
        }
    }
    assert(attach::items_of(prompts, peer_id) =~= waiting_of(prompts, peer_id));
}

/// What the others are told of a peer that leaves: that it left, and of each of
/// its prompts that wait, that it lost its owner.
pub open spec fn farewell(session: SessionView, peer: SubscriberView, peer_id: Seq<char>) -> Seq<
    Seq<u8>,
> {
    passing::with_update(
        session,
        amux::peer_left_frame(session.session_id, peer_id),
        |id: Seq<char>| session_update::client_disconnected_frame(id, peer_id, peer.peer_name),
    ) + waiting_of(session.queued_prompts, peer_id).map_values(
        |item: Seq<char>|
            json::json_text(
                amux::queue_item_orphaned_frame(session.session_id, item, peer_id),
            ),
    )
}

/// A peer that leaves is gone, and the others are told. Its prompts go on waiting.
/// Whether anybody is left is said; a peer that was not attached leaves nothing
/// behind.
pub proof fn law_leaving_is_told(session: SessionView, peer_id: Seq<char>)
    requires
        session.sound(),
    ensures
        ({
            let (after, empty) = session.detach(peer_id);
            let left = SessionView {
                subscribers: assoc::erase(session.subscribers, peer_id),
                ..session
            };
            &&& assoc::lookup(session.subscribers, peer_id) matches Some(peer) ==> told(
                left,
                after,
                farewell(session, peer, peer_id),
            )
            &&& !assoc::holds(session.subscribers, peer_id) ==> after.outbox == session.outbox
                && after.replay_log == session.replay_log && after.subscribers
                == session.subscribers
            &&& after.queued_prompts == session.queued_prompts
            &&& empty == (after.subscribers.len() == 0)
            &&& after.driving_subscriber_peer_id == if session.driving_subscriber_peer_id == Some(
                peer_id,
            ) {
                None
            } else {
                session.driving_subscriber_peer_id
            }
        }),
{
    if let Some(peer) = assoc::lookup(session.subscribers, peer_id) {
        let left = SessionView {
            subscribers: assoc::erase(session.subscribers, peer_id),
            ..session
        };
        let first = json::json_text(amux::peer_left_frame(session.session_id, peer_id));
        hearing::lemma_told_nothing(left);
        hearing::lemma_told_more(left, left, Seq::empty(), first);
        assert(Seq::empty().push(first) =~= seq![first]);
        let once = left.broadcast(first);
        let (spoken, known) = match plain_id(session) {
            Some(id) => {
                let second = json::json_text(
                    session_update::client_disconnected_frame(id, peer_id, peer.peer_name),
                );
                hearing::lemma_told_more(left, once, seq![first], second);
                assert(seq![first].push(second) =~= seq![first, second]);
                (once.broadcast(second), seq![first, second])
            },
            None => (once, seq![first]),
        };
        assert(told(left, spoken, known));
        lemma_waiting_of(session.queued_prompts, peer_id);
        let orphans = session.orphan_frames(peer_id);
        let expected = waiting_of(session.queued_prompts, peer_id).map_values(
            |item: Seq<char>|
                json::json_text(
                    amux::queue_item_orphaned_frame(session.session_id, item, peer_id),
                ),
        );
        assert(orphans =~= expected);
        hearing::lemma_told_all(left, spoken, known, orphans);
        attach::lemma_broadcast_all_scope(spoken, orphans);
        assert(session.drop_peer(peer_id, peer) == spoken.broadcast_all(orphans));
    }
}

/// A session that the agent knows, and to which somebody is attached, shows in the
/// index under the agent's id, with how many are attached and who drives, whenever
/// somebody came, went or took over; when nobody is left, it shows no longer.
pub proof fn law_index_shows_the_session(session: SessionView, other: Seq<char>)
    requires
        session.index.sound(),
    ensures
        ({
            let shown = session.publish_session_list_metadata().index;
            match session.canonical_session_id {
                None => shown == session.index,
                Some(id) => {
                    &&& session.subscribers.len() > 0 ==> shown.get(id) == Some(
                        MetadataView {
                            proxy_session_id: session.session_id,
                            subscriber_count: session.subscribers.len(),
                            driving_subscriber: session.driving_subscriber_peer_id,
                        },
                    )
                    &&& session.subscribers.len() == 0 ==> !(shown.get(id) matches Some(entry)
                        && entry.proxy_session_id == session.session_id)
                    &&& other != id ==> shown.get(other) == session.index.get(other)
                },
            }
        }),
        ({
            let cleared = session.clear_session_list_metadata().index;
            match session.canonical_session_id {
                None => cleared == session.index,
                Some(id) => {
                    &&& !(cleared.get(id) matches Some(entry) && entry.proxy_session_id
                        == session.session_id)
                    &&& other != id ==> cleared.get(other) == session.index.get(other)
                },
            }
        }),
{
    if let Some(id) = session.canonical_session_id {
        let entry = MetadataView {
            proxy_session_id: session.session_id,
            subscriber_count: session.subscribers.len(),
            driving_subscriber: session.driving_subscriber_peer_id,
        };
        metadata::law_index_reads_back(session.index, id, entry, other);
        metadata::law_index_keeps_what_others_published(
            session.index,
            id,
            session.session_id,
            id,
        );
        metadata::law_index_keeps_what_others_published(
            session.index,
            id,
            session.session_id,
            other,
        );
    }
}

/// The index is kept up: after somebody attached, and after somebody took over, the
/// session shows as it is; after somebody left, it shows as it is or no longer.
pub proof fn law_index_is_kept_up(
    session: SessionView,
    subscriber: SubscriberView,
    peer_id: Seq<char>,
    id: Seq<char>,
)
    requires
        session.sound(),
        session.canonical_session_id == Some(id),
        !assoc::holds(session.subscribers, subscriber.peer_id),
    ensures
        session.attach(subscriber).0.index.get(id) == Some(
            MetadataView {
                proxy_session_id: session.session_id,
                subscriber_count: session.attach(subscriber).0.subscribers.len(),
                driving_subscriber: session.driving_subscriber_peer_id,
            },
        ),
        assoc::holds(session.subscribers, peer_id) && session.driving_subscriber_peer_id != Some(
            peer_id,
        ) ==> session.note_driving_subscriber(peer_id).index.get(id) == Some(
            MetadataView {
                proxy_session_id: session.session_id,
                subscriber_count: session.subscribers.len(),
                driving_subscriber: Some(peer_id),
            },
        ),
        ({
            let (after, empty) = session.detach(peer_id);
            &&& !empty ==> after.index.get(id) == Some(
                MetadataView {
                    proxy_session_id: session.session_id,
                    subscriber_count: after.subscribers.len(),
                    driving_subscriber: after.driving_subscriber_peer_id,
                },
            )
            &&& empty ==> !(after.index.get(id) matches Some(entry) && entry.proxy_session_id
                == session.session_id)
        }),
{
    let joined = json::json_text(
        amux::peer_joined_frame(
            session.session_id,
            subscriber.peer_id,
            subscriber.peer_name,
            subscriber.role,
        ),
    );
    let heard = session.broadcast(joined);
    let entered = SessionView {
        subscribers: assoc::store(heard.subscribers, subscriber.peer_id, subscriber),
        ..heard
    };
    assoc::lemma_store(heard.subscribers, subscriber.peer_id, subscriber, subscriber.peer_id);
    law_index_shows_the_session(entered, id);
    let driven = SessionView { driving_subscriber_peer_id: Some(peer_id), ..session };
    law_index_shows_the_session(driven, id);
    assoc::lemma_index_of(session.subscribers, peer_id);
    let gone = match assoc::lookup(session.subscribers, peer_id) {
        Some(peer) => session.drop_peer(peer_id, peer),
        None => session,
    };
    if let Some(peer) = assoc::lookup(session.subscribers, peer_id) {
        lemma_drop_peer_scope(session, peer_id, peer);
    }
    let undriven = if gone.driving_subscriber_peer_id == Some(peer_id) {
        SessionView { driving_subscriber_peer_id: None, ..gone }
    } else {
        gone
    };
    law_index_shows_the_session(undriven, id);
}

proof fn lemma_drop_peer_scope(session: SessionView, peer_id: Seq<char>, peer: SubscriberView)
    ensures
        ({
            let gone = session.drop_peer(peer_id, peer);
            gone == (SessionView {
                subscribers: gone.subscribers,
                replay_log: gone.replay_log,
                next_replay_seq: gone.next_replay_seq,
                outbox: gone.outbox,
                ..session
            })
        }),
{
    let left = SessionView {
        subscribers: assoc::erase(session.subscribers, peer_id),
        ..session
    }.broadcast(json::json_text(amux::peer_left_frame(session.session_id, peer_id)));
    let spoken = match left.acp_session_id() {
        Some(acp_id) => left.broadcast(
            json::json_text(
                session_update::client_disconnected_frame(acp_id, peer_id, peer.peer_name),
            ),
        ),
        None => left,
    };
    attach::lemma_broadcast_all_scope(spoken, session.orphan_frames(peer_id));
}

/// The first good answer to `initialize` is remembered as it is, and so is the
/// first one to `session/new`, whose session is the one that the session goes by
/// from then on. An error is not remembered, nor is anything else.
pub proof fn law_handshake_is_remembered(
    session: SessionView,
    mux_id: u64,
    result: Option<JsonView>,
    resp: ResponseView,
)
    requires
        mux_id <= i64::MAX,
        resp.id == IdView::Number(mux_id as i64),
        resp.result == result,
        assoc::holds(session.pending, mux_id),
        session.active_turn_mux_id != Some(mux_id),
    ensures
        ({
            let (after, write) = session.route_agent_response(resp);
            let handshake = assoc::lookup(session.pending, mux_id)->0.handshake;
            let first = handshake == Some(HandshakeView::Initialize) && session.initialize_cache
                is None;
            let opened = handshake == Some(HandshakeView::SessionNew);
            &&& write is None
            &&& after.initialize_cache == if first {
                result
            } else {
                session.initialize_cache
            }
            &&& !(handshake matches Some(HandshakeView::SessionLoad { .. }))
                ==> after.session_new_cache == if opened && session.session_new_cache is None {
                result
            } else {
                session.session_new_cache
            }
            &&& !(handshake matches Some(HandshakeView::SessionLoad { .. }))
                ==> after.canonical_session_id == match result {
                Some(answer) => match answer.get("sessionId"@) {
                    Some(JsonView::String(id)) => if opened {
                        Some(id)
                    } else {
                        session.canonical_session_id
                    },
                    _ => session.canonical_session_id,
                },
                None => session.canonical_session_id,
            }
            &&& result is None ==> after.session_new_cache == session.session_new_cache
                && after.canonical_session_id == session.canonical_session_id && after.replay_log
                == session.replay_log
        }),
{
    assert(agent::answered(resp.id) == Some(mux_id));
}

/// When the session goes by another id of the agent, the index shows it under the
/// new id, and no longer under the old one.
pub proof fn law_session_moves_in_the_index(session: SessionView, id: Seq<char>)
    requires
        session.index.sound(),
        session.subscribers.len() > 0,
    ensures
        ({
            let after = session.set_canonical_session_id(id);
            &&& after.canonical_session_id == Some(id)
            &&& after.index.get(id) == Some(
                MetadataView {
                    proxy_session_id: session.session_id,
                    subscriber_count: session.subscribers.len(),
                    driving_subscriber: session.driving_subscriber_peer_id,
                },
            )
            &&& session.canonical_session_id matches Some(old) ==> old != id ==> !(after.index.get(
                old,
            ) matches Some(entry) && entry.proxy_session_id == session.session_id)
        }),
{
    match session.canonical_session_id {
        Some(old) => {
            metadata::law_index_keeps_what_others_published(
                session.index,
                old,
                session.session_id,
                old,
            );
            metadata::lemma_remove_sound(session.index, old, session.session_id);
            let moved = SessionView {
                canonical_session_id: Some(id),
                index: session.index.remove_if_proxy(old, session.session_id),
                ..session
            };
            law_index_shows_the_session(moved, old);
            law_index_shows_the_session(session, old);
        },
        None => {
            let named = SessionView { canonical_session_id: Some(id), ..session };
            law_index_shows_the_session(named, id);
        },
    }
}

/// A load that succeeds drops what was recorded before it was asked for, and says
/// how much that was and how much is left. The peers who are attached stand at the
/// front of the log, and what came since stays behind them as it was.
pub proof fn law_load_drops_what_came_before(
    session: SessionView,
    loaded: Seq<char>,
    asked_at: nat,
)
    requires
        session.replay_log is Some,
        asked_at <= session.replay_log->0.len(),
        session.replay_generation < u64::MAX,
    ensures
        ({
            let after = session.reset_replay_generation_after_load(loaded, asked_at);
            let log = session.replay_log->0;
            let kept = after.replay_log->0;
            let peers = session.subscribers.len();
            &&& after.replay_log is Some
            &&& kept.len() == peers + (log.len() - asked_at)
            &&& forall|i: int|
                asked_at <= i < log.len() ==> kept[peers + (i - asked_at)] == #[trigger] log[i]
            &&& after.replay_generation == session.replay_generation + 1
            &&& after.last_replay_reset matches Some(reset) && {
                &&& reset.loaded_session_id == loaded
                &&& reset.replay_generation == session.replay_generation + 1
                &&& reset.dropped_frame_count == asked_at
                &&& reset.retained_frame_count == kept.len()
            }
            &&& after.outbox == session.outbox
            &&& after.subscribers == session.subscribers
        }),
{
    let log = session.replay_log->0;
    let frames = load::presence_frames(session.session_id, load::by_id(session.subscribers));
    laws::lemma_by_id_len(session.subscribers);
    laws::lemma_numbered_frames(frames, session.clock, session.next_replay_seq);
}

/// The number of recorded frames that update a session is the number of those that
/// are updates of it.
pub proof fn law_updates_are_counted(log: Seq<ReplayEntryView>, id: Seq<char>)
    ensures
        snapshot::updates_of(log, id) == log.filter(
            |entry: ReplayEntryView| updates(entry.frame, id),
        ).len(),
    decreases log.len(),
{
    reveal(Seq::filter);
    if log.len() > 0 {
        law_updates_are_counted(log.drop_last(), id);
    }
}

/// Whether a frame is an update of a session.
pub open spec fn updates(frame: Seq<u8>, id: Seq<char>) -> bool {
    match json::json_document(frame) {
        Some(document) => {
            &&& document.get("method"@) == Some(JsonView::String("session/update"@))
            &&& document.get("params"@) matches Some(params) && params.get("sessionId"@) == Some(
                JsonView::String(id),
            )
        },
        None => false,
    }
}

/// Operators see who is attached, each with its name and role, and who drives.
pub proof fn law_operators_see_who_is_attached(session: SessionView, i: int)
    requires
        0 <= i < session.subscribers.len(),
    ensures
        session.subscriber_snapshots().len() == session.subscribers.len(),
        ({
            let seen = session.subscriber_snapshots()[i];
            let peer = session.subscribers[i].1;
            &&& seen.peer_id == peer.peer_id
            &&& seen.peer_name == peer.peer_name
            &&& seen.role == peer.role
            &&& seen.is_driving == (session.driving_subscriber_peer_id == Some(peer.peer_id))
        }),
{
}

/// An operator is shown the session as it is.
pub proof fn law_operators_see_the_session(
    shown: SessionSnapshot,
    session: SessionView,
    waiting: bool,
)
    requires
        shown.shows(session, waiting),
    ensures
        shown.session_id@ == session.session_id,
        shown.agent_cwd@ == session.agent_cwd,
        shown.subscribers@.len() == session.subscribers.len(),
        shown.pending_request_count == session.pending.len(),
        shown.initialize_cached == (session.initialize_cache is Some),
        shown.cached_session_id.deep_view() == match session.session_new_cache {
            Some(answer) => match answer.get("sessionId"@) {
                Some(JsonView::String(id)) => Some(id),
                _ => None,
            },
            None => None,
        },
        shown.active_turn_mux_id == session.active_turn_mux_id,
        session.active_amux_turn_id is None ==> shown.active_amux_turn_id is None,
        session.active_amux_turn_id matches Some(turn_id) ==> shown.active_amux_turn_id.deep_view()
            == Some(turn_id.text()),
        shown.driving_subscriber.deep_view() == session.driving_subscriber_peer_id,
        shown.ttl_pending == waiting,
        session.replay_log matches Some(log) ==> shown.replay_log_len matches Some(len) && len
            == log.len(),
        session.replay_log is None ==> shown.replay_log_len is None,
        shown.replay_generation == session.replay_generation,
        shown.last_replay_reset.deep_view() == session.last_replay_reset,
        shown.next_mux_id == session.next_mux_id,
        shown.next_amux_turn_id == session.next_amux_turn_id,
{
    assert(shown.subscribers.deep_view().len() == shown.subscribers@.len());
}

/// An operator is shown, of each session that recorded frames update, how many do,
/// and of no other.
pub proof fn law_operators_see_what_is_recorded(
    shown: SessionSnapshot,
    session: SessionView,
    waiting: bool,
    log: Seq<ReplayEntryView>,
    id: Seq<char>,
)
    requires
        shown.shows(session, waiting),
        session.replay_log == Some(log),
    ensures
        ({
            let counts = shown.replay_log_update_frames_by_acp_session_id->0.deep_view();
            let updating = log.filter(|entry: ReplayEntryView| updates(entry.frame, id));
            &&& shown.replay_log_update_frames_by_acp_session_id is Some
            &&& updating.len() > 0 ==> counts.contains((id, updating.len()))
            &&& forall|i: int|
                0 <= i < counts.len() && (#[trigger] counts[i]).0 == id ==> counts[i].1
                    == updating.len() && updating.len() > 0
        }),
{
    law_updates_are_counted(log, id);
    let counts = shown.replay_log_update_frames_by_acp_session_id->0.deep_view();
    assert(assoc::lookup(counts, id) == if snapshot::updates_of(log, id) == 0 {
        None
    } else {
        Some(snapshot::updates_of(log, id))
    });
    assoc::lemma_index_of(counts, id);
    let at = assoc::index_of(counts, id);
    if at < counts.len() {
        assert(counts[at] == (id, counts[at].1));
    }
    assert forall|i: int| 0 <= i < counts.len() && (#[trigger] counts[i]).0 == id implies at
        == i by {
        if at < i {
            text::lemma_precedes_total(counts[at].0, counts[i].0);
        }
    }
}

/// The document for operators shows each part under its name.
pub proof fn law_operators_read_the_session(shown: SessionSnapshot)
    ensures
        ({
            let document = shown.json();
            &&& document.get("sessionId"@) == Some(JsonView::String(shown.session_id@))
            &&& document.get("agentCwd"@) == Some(JsonView::String(shown.agent_cwd@))
            &&& document.get("subscribers"@) == Some(
                answers::listed::<SubscriberSnapshot>(shown.subscribers.deep_view()),
            )
            &&& document.get("pendingRequestCount"@) == Some(
                JsonView::Int(shown.pending_request_count as int),
            )
            &&& document.get("initializeCached"@) == Some(JsonView::Bool(shown.initialize_cached))
            &&& document.get("cachedSessionId"@) == Some(
                json::or_null(json::text_opt(shown.cached_session_id.deep_view())),
            )
            &&& document.get("activeTurnMuxId"@) == Some(
                json::or_null(json::number_opt(shown.active_turn_mux_id)),
            )
            &&& document.get("activeAmuxTurnId"@) == Some(
                json::or_null(json::text_opt(shown.active_amux_turn_id.deep_view())),
            )
            &&& document.get("drivingSubscriber"@) == Some(
                json::or_null(json::text_opt(shown.driving_subscriber.deep_view())),
            )
        }),
{
    broadcast use json::lemma_get_field;

    lemma_names();
    answers::law_lists_show_every_item::<SubscriberSnapshot>(shown.subscribers.deep_view());
}

/// The rest of the document for operators: how the session stands and what it has
/// recorded.
pub proof fn law_operators_read_the_rest(shown: SessionSnapshot)
    ensures
        ({
            let document = shown.json();
            &&& document.get("subprocessDead"@) == Some(JsonView::Bool(shown.subprocess_dead))
            &&& document.get("ttlPending"@) == Some(JsonView::Bool(shown.ttl_pending))
            &&& document.get("replayGeneration"@) == Some(
                JsonView::Int(shown.replay_generation as int),
            )
            &&& document.get("nextMuxId"@) == Some(JsonView::Int(shown.next_mux_id as int))
            &&& document.get("nextAmuxTurnId"@) == Some(
                JsonView::Int(shown.next_amux_turn_id as int),
            )
            &&& document.get("replayLogLen"@) == Some(
                match shown.replay_log_len {
                    Some(len) => JsonView::Int(len as int),
                    None => JsonView::Null,
                },
            )
            &&& document.get("replayLogUpdateFramesByAcpSessionId"@) == Some(
                match shown.replay_log_update_frames_by_acp_session_id {
                    Some(counts) => snapshot::counts_json(counts.deep_view()),
                    None => JsonView::Null,
                },
            )
            &&& document.get("lastReplayReset"@) == Some(
                match shown.last_replay_reset {
                    Some(reset) => ReplayResetSnapshot::json_of(reset.deep_view()),
                    None => JsonView::Null,
                },
            )
        }),
{
    broadcast use json::lemma_get_field;

    lemma_names();
}

/// The counts of recorded frames show under the ids of the sessions.
pub proof fn law_counts_show_by_session(counts: Seq<(Seq<char>, nat)>, i: int)
    requires
        snapshot::in_key_order(counts),
        0 <= i < counts.len(),
    ensures
        snapshot::counts_json(counts) is Object,
        snapshot::counts_json(counts).get(counts[i].0) == Some(JsonView::Int(counts[i].1 as int)),
    decreases counts.len(),
{
    broadcast use json::lemma_get_field;

    let front = counts.drop_last();
    if i < front.len() {
        law_counts_show_by_session(front, i);
        text::lemma_precedes_total(counts[i].0, counts[counts.len() - 1].0);
        assert(front[i] == counts[i]);
    } else if front.len() > 0 {
        law_counts_show_by_session(front, 0);
    } else {
        assert(snapshot::counts_json(front) == JsonView::object());
    }
}

/// A peer and a load show their parts.
pub proof fn law_operators_read_peers_and_loads(
    peer: SubscriberSnapshotView,
    reset: ReplayResetView,
)
    ensures
        ({
            let shown = SubscriberSnapshot::json_of(peer);
            &&& shown.get("peerId"@) == Some(JsonView::String(peer.peer_id))
            &&& shown.get("peerName"@) == Some(json::or_null(json::text_opt(peer.peer_name)))
            &&& shown.get("role"@) == Some(json::or_null(json::text_opt(peer.role)))
            &&& shown.get("isDriving"@) == Some(JsonView::Bool(peer.is_driving))
        }),
        ({
            let shown = ReplayResetSnapshot::json_of(reset);
            &&& shown.get("loadedSessionId"@) == Some(JsonView::String(reset.loaded_session_id))
            &&& shown.get("replayGeneration"@) == Some(
                JsonView::Int(reset.replay_generation as int),
            )
            &&& shown.get("droppedFrameCount"@) == Some(
                JsonView::Int(reset.dropped_frame_count as int),
            )
            &&& shown.get("retainedFrameCount"@) == Some(
                JsonView::Int(reset.retained_frame_count as int),
            )
        }),
{
    broadcast use json::lemma_get_field;

    lemma_names();
}

} // verus!

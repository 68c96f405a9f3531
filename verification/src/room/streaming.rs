//! What a peer that attaches to a room is shown of it, at once and page by page.

use crate::assoc;
use crate::json;
use crate::json::{JsonView, ToJson};
use crate::multiplex::subscriber::DeliveryView;
use crate::protocol::amux;
use crate::protocol::amux::SegmentId;
use crate::protocol::attach::{
    AttachActiveTurnView, AttachAmuxMetaView, AttachMetaView, AttachParamsView, AttachResult,
    AttachResultView, HistoryDelivery, HistoryEntry, HistoryEntryView, HistoryPolicy, ReplayOrder,
};
use crate::protocol::jsonrpc::RequestView;
use crate::room::attach;
use crate::room::state::{BackfillView, RoomEntry, RoomEntryView, RoomView};
use crate::room::turns;
use crate::room::turns::{Mark, Marked};
use crate::session::attach::history_of;
use crate::session::hearing;
use crate::session::hearing::only_to;
use crate::session::showing;
use crate::session::showing::{
    about_this, in_turn_to, known_as, method_of, roster, tells_of, waiting_frames,
};
use crate::session::state::{QueuedPromptKind, SessionView};
use crate::session::working::{error_answer, result_answer};
use vstd::prelude::*;

verus! {

/// What a client sees by default of a log: what was recorded before the first
/// segment opened, and what was recorded in the active one.
pub open spec fn seen(log: Seq<RoomEntryView>, active: Option<SegmentId>) -> Seq<RoomEntryView> {
    log.filter(|entry: RoomEntryView| entry.segment_id.0 == 0 || active == Some(entry.segment_id))
}

proof fn lemma_seen(log: Seq<RoomEntryView>, active: Option<SegmentId>)
    ensures
        attach::current(log, active) == seen(log, active),
    decreases log.len(),
{
    reveal(Seq::filter);
    if log.len() > 0 {
        lemma_seen(log.drop_last(), active);
    }
}

/// The frames of some entries as they are replayed, each in its place.
pub open spec fn replays(entries: Seq<RoomEntryView>) -> Seq<Seq<u8>> {
    Seq::new(entries.len(), |i: int| entries[i].entry.replayed())
}

proof fn lemma_replays(entries: Seq<RoomEntryView>)
    ensures
        attach::replayed(entries) == replays(entries),
{
    assert(attach::replayed(entries) =~= replays(entries));
}

/// The whole lineage is the whole log; every other policy that asks for frames
/// asks for those of the active segment and those before the first one, in the
/// order of recording.
pub proof fn law_policy_picks_frames(room: RoomView)
    ensures
        room.replay_log matches Some(log) ==> {
            &&& room.entries_for(HistoryPolicy::FullLineage) == log
            &&& room.entries_for(HistoryPolicy::Full) == seen(log, room.active_segment_id)
            &&& room.entries_for(HistoryPolicy::AfterMessage) == seen(log, room.active_segment_id)
        },
        room.replay_log is None ==> room.entries_for(HistoryPolicy::FullLineage).len() == 0
            && room.entries_for(HistoryPolicy::Full).len() == 0,
{
    if let Some(log) = room.replay_log {
        lemma_seen(log, room.active_segment_id);
    }
}

/// A history in the answer tells of the frames that the policy picks, as they are
/// replayed, from the first to the last; where each of them has a method, none is
/// left out. With the policy for what waits it tells of the permission requests
/// that wait, and with none there is no history.
pub proof fn law_room_history_by_policy(room: RoomView, policy: HistoryPolicy)
    ensures
        policy == HistoryPolicy::NoHistory ==> room.history(policy) is None,
        policy == HistoryPolicy::PendingOnly ==> room.history(policy) == Some(
            history_of(waiting_frames(room.session)),
        ),
        policy != HistoryPolicy::NoHistory && policy != HistoryPolicy::PendingOnly ==> {
            let frames = replays(room.entries_for(policy));
            &&& room.history(policy) == Some(history_of(frames))
            &&& (forall|i: int| 0 <= i < frames.len() ==> method_of(#[trigger] frames[i]) is Some)
                ==> {
                let history = room.history(policy)->0;
                &&& history.len() == room.entries_for(policy).len()
                &&& forall|i: int|
                    0 <= i < history.len() ==> tells_of(
                        #[trigger] history[i],
                        room.entries_for(policy)[i].entry.replayed(),
                    )
            }
        },
{
    showing::lemma_waiting_frames(room.session);
    let entries = room.entries_for(policy);
    lemma_replays(entries);
    let frames = replays(entries);
    if forall|i: int| 0 <= i < frames.len() ==> method_of(#[trigger] frames[i]) is Some {
        showing::law_history_is_as_long_as_the_frames(frames);
        assert forall|i: int| 0 <= i < history_of(frames).len() implies tells_of(
            #[trigger] history_of(frames)[i],
            entries[i].entry.replayed(),
        ) by {
            assert(frames[i] == entries[i].entry.replayed());
        }
    }
}

/// The last number that is replayed: that of the last frame, or zero where there
/// is none.
pub proof fn law_boundary_is_the_last_number(entries: Seq<RoomEntryView>)
    ensures
        entries.len() == 0 ==> attach::boundary(entries) == 0,
        forall|i: int|
            i == entries.len() - 1 && i >= 0 ==> attach::boundary(entries) == (
            #[trigger] entries[i]).entry.seq,
{
}

/// Whether a request asks for a history that is streamed.
pub open spec fn asks_to_stream(params: AttachParamsView) -> bool {
    &&& params.history_delivery() == HistoryDelivery::Stream
    &&& params.policy() == HistoryPolicy::Full || params.policy() == HistoryPolicy::FullLineage
}

/// The answer to a request to attach, with a history or with the state of the room.
pub open spec fn answer_to(room: RoomView, peer_id: Seq<char>, params: AttachParamsView) ->
    AttachResultView {
    AttachResultView {
        session_id: known_as(room.session),
        client_id: match params.client_id {
            Some(id) => id,
            None => peer_id,
        },
        history_policy: params.policy(),
        history: if asks_to_stream(params) || room.history(params.policy()) is None {
            None
        } else {
            Some(
                turns::in_order::<HistoryEntry>(
                    room.history(params.policy())->0,
                    params.replay_order(),
                ),
            )
        },
        meta: AttachMetaView {
            amux: AttachAmuxMetaView {
                connected_clients: roster(room.session),
                applied_replay_order: params.replay_order(),
                applied_history_delivery: if asks_to_stream(params) {
                    HistoryDelivery::Stream
                } else {
                    HistoryDelivery::Response
                },
                snapshot: if asks_to_stream(params) {
                    Some(
                        room.attach_snapshot(
                            peer_id,
                            attach::boundary(room.entries_for(params.policy())),
                        ),
                    )
                } else {
                    None
                },
            },
        },
    }
}

/// The frames that go before and behind a streamed part of a history.
pub open spec fn around(
    room_id: Seq<char>,
    phase: Seq<char>,
    order: ReplayOrder,
    generation: u64,
    boundary: u64,
    count: usize,
) -> (Seq<u8>, Seq<u8>) {
    (
        json::json_text(
            amux::replay_started_frame(
                room_id,
                phase,
                order.text(),
                generation,
                boundary,
                count,
            ),
        ),
        json::json_text(
            amux::replay_complete_frame(
                room_id,
                phase,
                order.text(),
                generation,
                boundary,
                count,
            ),
        ),
    )
}

/// A request that asks for the history in the answer gets it there, and after the
/// answer every permission request that waits, in order. Nothing is streamed.
pub proof fn law_room_answers_in_one_piece(room: RoomView, peer_id: Seq<char>, req: RequestView)
    requires
        room.session.sound(),
        room.session.reachable(peer_id),
        about_this(room.session, AttachParamsView::of_request(req.params).session_id),
        !asks_to_stream(AttachParamsView::of_request(req.params)),
    ensures
        ({
            let params = AttachParamsView::of_request(req.params);
            room.handle_attach(peer_id, req) == (RoomView {
                session: SessionView {
                    outbox: room.session.outbox.push(
                        DeliveryView {
                            peer_id,
                            message: result_answer(
                                req.id,
                                AttachResult::json_of(answer_to(room, peer_id, params)),
                            ),
                        },
                    ) + in_turn_to(peer_id, waiting_frames(room.session)),
                    ..room.session
                },
                ..room
            })
        }),
{
    let params = AttachParamsView::of_request(req.params);
    showing::lemma_roster(room.session);
    showing::lemma_waiting_frames(room.session);
    assert(room.attach_result(peer_id, params) == answer_to(room, peer_id, params));
    let answered = room.session.send_result_response(
        peer_id,
        req.id,
        AttachResult::json_of(answer_to(room, peer_id, params)),
    );
    showing::law_frames_for_a_peer_are_sent_in_order(
        answered,
        peer_id,
        waiting_frames(room.session),
    );
}

/// What is streamed right after the answer: the latest turn, where one goes first,
/// between its markers, and every permission request that waits.
pub open spec fn at_once(
    room: RoomView,
    latest: Seq<RoomEntryView>,
    order: ReplayOrder,
    boundary: u64,
) -> Seq<Seq<u8>> {
    let (started, complete) = around(
        room.session.session_id,
        "latest_segment"@,
        order,
        room.session.replay_generation,
        boundary,
        latest.len() as usize,
    );
    if latest.len() == 0 {
        waiting_frames(room.session)
    } else {
        seq![started] + replays(latest) + seq![complete] + waiting_frames(room.session)
    }
}

/// A request that asks for a streamed history is answered with the state of the
/// room; then the latest turn follows, where it goes first, and what waits. Every
/// other page is kept to be sent a little later, as it is replayed.
pub proof fn law_room_streams_what_is_asked_for(
    room: RoomView,
    peer_id: Seq<char>,
    req: RequestView,
)
    requires
        room.session.sound(),
        room.session.reachable(peer_id),
        about_this(room.session, AttachParamsView::of_request(req.params).session_id),
        asks_to_stream(AttachParamsView::of_request(req.params)),
    ensures
        ({
            let params = AttachParamsView::of_request(req.params);
            let order = params.replay_order();
            let entries = room.entries_for(params.policy());
            let boundary = attach::boundary(entries);
            let (latest, pages) = turns::streamed::<RoomEntry>(entries, order);
            let after = room.handle_attach(peer_id, req);
            &&& after == (RoomView {
                session: SessionView {
                    outbox: room.session.outbox.push(
                        DeliveryView {
                            peer_id,
                            message: result_answer(
                                req.id,
                                AttachResult::json_of(answer_to(room, peer_id, params)),
                            ),
                        },
                    ) + in_turn_to(peer_id, at_once(room, latest, order, boundary)),
                    ..room.session
                },
                scheduled: after.scheduled,
                ..room
            })
            &&& pages.len() == 0 ==> after.scheduled == room.scheduled
            &&& pages.len() > 0 ==> {
                let later = after.scheduled.last();
                &&& after.scheduled == room.scheduled.push(later)
                &&& later.delay_ms == 25
                &&& later.plan == (BackfillView {
                    peer_id,
                    room_id: room.session.session_id,
                    replay_order: order,
                    replay_generation: room.session.replay_generation,
                    replay_boundary_seq: boundary,
                    frame_count: pages.flatten().len() as usize,
                    segments: later.plan.segments,
                    started: false,
                })
                &&& later.plan.segments.len() == pages.len()
                &&& forall|i: int|
                    0 <= i < pages.len() ==> #[trigger] later.plan.segments[i] == replays(pages[i])
            }
        }),
{
    let params = AttachParamsView::of_request(req.params);
    let order = params.replay_order();
    let entries = room.entries_for(params.policy());
    let boundary = attach::boundary(entries);
    let (latest, pages) = turns::streamed::<RoomEntry>(entries, order);
    showing::lemma_roster(room.session);
    showing::lemma_waiting_frames(room.session);
    lemma_replays(latest);
    lemma_total(pages);
    let answer = AttachResult::json_of(answer_to(room, peer_id, params));
    assert(room.attach_result(peer_id, params) == answer_to(room, peer_id, params));
    let answered = room.session.send_result_response(peer_id, req.id, answer);
    let heard = RoomView { session: answered, ..room };
    let permissions = waiting_frames(room.session);
    let frames = at_once(room, latest, order, boundary);
    assert(heard.latest_frames(latest, order, boundary) + permissions =~= frames);
    showing::law_frames_for_a_peer_are_sent_in_order(answered, peer_id, frames);
    assert(answered.reachable(peer_id));
    assert(room.handle_attach(peer_id, req) == heard.stream_attach_history(
        peer_id,
        entries,
        order,
        boundary,
        permissions,
    ));
    if pages.len() > 0 {
        let later = room.handle_attach(peer_id, req).scheduled.last();
        assert forall|i: int| 0 <= i < pages.len() implies #[trigger] later.plan.segments[i]
            == replays(pages[i]) by {
            lemma_replays(pages[i]);
        }
    }
}

proof fn lemma_total<T>(lists: Seq<Seq<T>>)
    ensures
        turns::total(lists) == lists.flatten().len(),
    decreases lists.len(),
{
    if lists.len() > 0 {
        lemma_total(lists.drop_last());
        lists.lemma_flatten_and_flatten_alt_are_equivalent();
        lists.drop_last().lemma_flatten_and_flatten_alt_are_equivalent();
    }
}

/// Everything that is still to be sent by a plan: the marker before it, where it
/// was not sent yet, the frames of its pages, and the marker behind it.
pub open spec fn whole(plan: BackfillView) -> Seq<Seq<u8>> {
    let (started, complete) = around(
        plan.room_id,
        "backfill"@,
        plan.replay_order,
        plan.replay_generation,
        plan.replay_boundary_seq,
        plan.frame_count,
    );
    (if plan.started {
        Seq::empty()
    } else {
        seq![started]
    }) + plan.segments.flatten() + seq![complete]
}

/// Page by page everything of a plan is sent, in order and once: what is sent now,
/// followed by what is left for later, is what was to be sent. A page at a time
/// goes out, and with the last one the marker that ends the streaming.
pub proof fn law_pages_are_streamed_in_full(room: RoomView, plan: BackfillView)
    requires
        room.session.reachable(plan.peer_id),
    ensures
        ({
            let after = room.send_attach_backfill_page(plan);
            let sent = after.session.outbox.skip(room.session.outbox.len() as int);
            &&& after == (RoomView {
                session: SessionView { outbox: after.session.outbox, ..room.session },
                scheduled: after.scheduled,
                ..room
            })
            &&& plan.segments.len() <= 1 ==> {
                &&& after.session.outbox == room.session.outbox + in_turn_to(
                    plan.peer_id,
                    whole(plan),
                )
                &&& after.scheduled == room.scheduled
            }
            &&& plan.segments.len() > 1 ==> {
                let later = after.scheduled.last();
                &&& after.scheduled == room.scheduled.push(later)
                &&& later.delay_ms == 1
                &&& later.plan == (BackfillView {
                    started: true,
                    segments: plan.segments.skip(1),
                    ..plan
                })
                &&& after.session.outbox == room.session.outbox + sent
                &&& sent + in_turn_to(plan.peer_id, whole(later.plan)) == in_turn_to(
                    plan.peer_id,
                    whole(plan),
                )
            }
        }),
{
    let after = room.send_attach_backfill_page(plan);
    let peer_id = plan.peer_id;
    let frames = plan.next_frames();
    let (started, complete) = around(
        plan.room_id,
        "backfill"@,
        plan.replay_order,
        plan.replay_generation,
        plan.replay_boundary_seq,
        plan.frame_count,
    );
    let marker = if plan.started {
        Seq::empty()
    } else {
        seq![started]
    };
    showing::law_frames_for_a_peer_are_sent_in_order(room.session, peer_id, frames);
    let sent = room.session.send_frames_to(peer_id, frames);
    showing::law_frames_for_a_peer_are_sent_in_order(sent, peer_id, seq![complete]);
    let pages = plan.segments;
    pages.lemma_flatten_and_flatten_alt_are_equivalent();
    if pages.len() == 0 {
        assert(pages.flatten() =~= Seq::empty());
        assert(whole(plan) =~= frames + seq![complete]);
    } else {
        assert(frames =~= marker + pages[0]);
        assert(pages.flatten() == pages.first() + pages.drop_first().flatten());
        assert(pages.skip(1) =~= pages.drop_first());
        if pages.len() == 1 {
            assert(pages.drop_first().flatten() =~= Seq::empty());
            assert(whole(plan) =~= frames + seq![complete]);
        }
    }
    if pages.len() <= 1 {
        assert(in_turn_to(peer_id, whole(plan)) =~= in_turn_to(peer_id, frames) + in_turn_to(
            peer_id,
            seq![complete],
        ));
        assert(after.session.outbox =~= room.session.outbox + in_turn_to(peer_id, whole(plan)));
    } else {
        let next = BackfillView { started: true, segments: pages.skip(1), ..plan };
        assert(plan.rest() =~= next);
        assert(whole(plan) =~= frames + whole(next));
        assert(after.session.outbox.skip(room.session.outbox.len() as int) =~= in_turn_to(
            peer_id,
            frames,
        ));
        assert(in_turn_to(peer_id, frames) + in_turn_to(peer_id, whole(next)) =~= in_turn_to(
            peer_id,
            whole(plan),
        ));
    }
}

/// A peer that has left gets no more pages, and none are kept for it.
pub proof fn law_streaming_ends_with_the_peer(room: RoomView, plan: BackfillView)
    requires
        forall|i: int|
            0 <= i < room.session.subscribers.len() ==> (#[trigger] room.session.subscribers[i]).0
                != plan.peer_id,
    ensures
        room.send_attach_backfill_page(plan) == room,
{
    assoc::lemma_index_of(room.session.subscribers, plan.peer_id);
}

/// A request to attach to another session is refused, and nothing changes.
pub proof fn law_another_room_is_not_found(room: RoomView, peer_id: Seq<char>, req: RequestView)
    requires
        room.session.sound(),
        !about_this(room.session, AttachParamsView::of_request(req.params).session_id),
    ensures
        room.handle_attach(peer_id, req) == (RoomView {
            session: SessionView {
                outbox: room.session.outbox + only_to(
                    room.session,
                    peer_id,
                    error_answer(req.id, (-32001) as i64, "session not found"@),
                ),
                ..room.session
            },
            ..room
        }),
{
    hearing::lemma_reach(
        room.session,
        peer_id,
        error_answer(req.id, (-32001) as i64, "session not found"@),
    );
}

/// The state of the room that a peer is told is the state of the room: who is
/// attached, and the peer among them; the turn that is active; what is queued and
/// which permission requests wait, each in its place; and the rest as it stands.
pub proof fn law_snapshot_is_the_state(room: RoomView, peer_id: Seq<char>, boundary: u64)
    requires
        room.session.sound(),
    ensures
        ({
            let shown = room.attach_snapshot(peer_id, boundary);
            let session = room.session;
            &&& shown.connected_clients == roster(session)
            &&& shown.self_peer.client_id == peer_id
            &&& shown.self_peer.name == match assoc::lookup(session.subscribers, peer_id) {
                Some(peer) => peer.peer_name,
                None => None,
            }
            &&& shown.replay_boundary_seq == boundary
            &&& shown.replay_generation == session.replay_generation
            &&& shown.segments == room.segments
            &&& shown.active_segment_id == room.active_segment_id
            &&& shown.compression_count == room.compression_count
            &&& shown.compaction == room.compaction
            &&& session.active_turn_mux_id is None ==> shown.active_turn is None
            &&& session.active_turn_mux_id matches Some(mux_id) ==> {
                match (
                    session.active_amux_turn_id,
                    assoc::lookup(session.pending, mux_id),
                ) {
                    (Some(turn_id), Some(pending)) => shown.active_turn == Some(
                        AttachActiveTurnView {
                            amux_turn_id: turn_id.text(),
                            peer_id: pending.peer_id,
                        },
                    ),
                    _ => shown.active_turn is None,
                }
            }
        }),
{
    showing::lemma_roster(room.session);
    let session = room.session;
    let clients = crate::session::attach::clients_of(session.subscribers);
    lemma_client_found(clients, peer_id);
    assoc::lemma_index_of(session.subscribers, peer_id);
    let at = attach::client_position(clients, peer_id);
    if at < clients.len() {
        assert(clients[at] == roster(session)[at]);
        assert(session.subscribers[at].0 == peer_id);
        let found = assoc::index_of(session.subscribers, peer_id);
        if found < at {
            assert(clients[found] == roster(session)[found]);
        }
        assert(found == at);
    } else if assoc::holds(session.subscribers, peer_id) {
        let found = assoc::index_of(session.subscribers, peer_id);
        assert(clients[found] == roster(session)[found]);
    }
}

proof fn lemma_client_found(
    clients: Seq<crate::protocol::attach::ConnectedClientView>,
    client_id: Seq<char>,
)
    ensures
        0 <= attach::client_position(clients, client_id) <= clients.len(),
        attach::client_position(clients, client_id) < clients.len() ==> clients[
            attach::client_position(clients, client_id)
        ].client_id == client_id,
        forall|j: int|
            0 <= j < attach::client_position(clients, client_id) ==> (
            #[trigger] clients[j]).client_id != client_id,
    decreases clients.len(),
{
    if clients.len() != 0 && clients[0].client_id != client_id {
        let rest = clients.drop_first();
        lemma_client_found(rest, client_id);
        assert forall|j: int|
            0 <= j < attach::client_position(clients, client_id) implies (
        #[trigger] clients[j]).client_id != client_id by {
            if j > 0 {
                assert(rest[j - 1] == clients[j]);
            }
        }
    }
}

/// Every prompt that waits is shown in its place: by its id, whose it is and of
/// which sort.
pub proof fn law_snapshot_shows_the_queue(
    room: RoomView,
    peer_id: Seq<char>,
    boundary: u64,
    i: int,
)
    requires
        0 <= i < room.session.queued_prompts.len(),
    ensures
        ({
            let shown = room.attach_snapshot(peer_id, boundary).queue;
            let prompt = room.session.queued_prompts[i];
            &&& shown.len() == room.session.queued_prompts.len()
            &&& shown[i].queue_item_id == prompt.queue_item_id
            &&& shown[i].peer_id == prompt.peer_id
            &&& shown[i].status == "queued"@
            &&& prompt.kind == QueuedPromptKind::Prompt ==> shown[i].kind == "prompt"@
            &&& prompt.kind == QueuedPromptKind::Queue ==> shown[i].kind == "queue"@
            &&& prompt.kind is HardSteer ==> shown[i].kind == "hard_steer"@
        }),
{
}

/// Every permission request that waits is shown in its place: by its id, the name
/// of the tool that it is about, and what the request says of it.
pub proof fn law_snapshot_shows_what_waits(
    room: RoomView,
    peer_id: Seq<char>,
    boundary: u64,
    i: int,
    request: JsonView,
    params: JsonView,
    call: JsonView,
)
    requires
        0 <= i < room.session.pending_permission_frames.len(),
        json::json_document(room.session.pending_permission_frames[i].frame) == Some(request),
        request.get("params"@) == Some(params),
        params.get("toolCall"@) == Some(call),
    ensures
        ({
            let shown = room.attach_snapshot(peer_id, boundary).pending_permissions;
            let waiting = room.session.pending_permission_frames;
            let named = |name: Option<JsonView>|
                match name {
                    Some(JsonView::String(text)) => Some(text),
                    _ => None,
                };
            &&& shown.len() == waiting.len()
            &&& shown[i].request_id == waiting[i].id.json()
            &&& shown[i].summary == named(call.get("title"@))
            &&& call.get("title"@) is Some ==> shown[i].tool_name == named(call.get("title"@))
            &&& call.get("title"@) is None && call.get("toolName"@) is Some
                ==> shown[i].tool_name == named(call.get("toolName"@))
            &&& call.get("title"@) is None && call.get("toolName"@) is None
                ==> shown[i].tool_name == named(call.get("name"@))
        }),
{
}

/// A request without a tool call is shown by its id alone.
pub proof fn law_snapshot_shows_other_requests(
    room: RoomView,
    peer_id: Seq<char>,
    boundary: u64,
    i: int,
)
    requires
        0 <= i < room.session.pending_permission_frames.len(),
        ({
            match json::json_document(room.session.pending_permission_frames[i].frame) {
                Some(request) => match request.get("params"@) {
                    Some(params) => params.get("toolCall"@) is None,
                    None => true,
                },
                None => true,
            }
        }),
    ensures
        ({
            let shown = room.attach_snapshot(peer_id, boundary).pending_permissions[i];
            &&& shown.request_id == room.session.pending_permission_frames[i].id.json()
            &&& shown.tool_name is None
            &&& shown.summary is None
        }),
{
}

/// A recorded frame starts or ends a turn by its method, and so does an entry of a
/// history.
pub proof fn law_marks_go_by_the_method(entry: RoomEntryView, told: HistoryEntryView)
    ensures
        RoomEntry::mark_of_view(entry) == Mark::Start <==> method_of(entry.entry.frame) == Some(
            "amux/turn_started"@,
        ),
        RoomEntry::mark_of_view(entry) == Mark::End <==> method_of(entry.entry.frame) == Some(
            "amux/turn_complete"@,
        ),
        HistoryEntry::mark_of_view(told) == Mark::Start <==> told.method == "amux/turn_started"@,
        HistoryEntry::mark_of_view(told) == Mark::End <==> told.method == "amux/turn_complete"@,
{
    turns::law_turns_are_marked_by_their_frames(method_of(entry.entry.frame));
    turns::law_turns_are_marked_by_their_frames(Some(told.method));
}

} // verus!

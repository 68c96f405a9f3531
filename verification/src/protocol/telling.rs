//! What the frames of the mux say, member by member.

use crate::json;
use crate::json::JsonView;
use crate::protocol::amux;
use crate::protocol::amux::{
    AmuxTurnId, ContextCompactionDone, ContextCompactionStarted, ControlSubmitted, EndReason,
    HermesProvenanceView, SegmentId,
};
use crate::protocol::names::lemma_names;
use crate::protocol::session_update;
use crate::scan;
use crate::session::control;
use crate::text;
use vstd::prelude::*;

verus! {

/// A member of the parameters of a frame.
pub open spec fn param(frame: JsonView, key: Seq<char>) -> Option<JsonView> {
    match frame.get("params"@) {
        Some(params) => params.get(key),
        None => None,
    }
}

/// A member of the update that a `session/update` carries.
pub open spec fn update(frame: JsonView, key: Seq<char>) -> Option<JsonView> {
    match param(frame, "update"@) {
        Some(update) => update.get(key),
        None => None,
    }
}

/// Whether a frame is a notification of the given method.
pub open spec fn notifies(frame: JsonView, method: Seq<char>) -> bool {
    &&& frame.get("jsonrpc"@) == Some(JsonView::String("2.0"@))
    &&& frame.get("method"@) == Some(JsonView::String(method))
    &&& frame.get("id"@) is None
}

/// An optional turn id as it stands in a frame.
pub open spec fn turn_opt(turn_id: Option<AmuxTurnId>) -> Option<JsonView> {
    match turn_id {
        Some(turn_id) => Some(JsonView::String(turn_id.text())),
        None => None,
    }
}

/// An optional segment id as it stands in a frame.
pub open spec fn segment_opt(segment_id: Option<SegmentId>) -> Option<JsonView> {
    match segment_id {
        Some(segment_id) => Some(JsonView::String(segment_id.text())),
        None => None,
    }
}

/// A client as updates name it: by its id, and by its name where it has one.
pub open spec fn client(client_id: Seq<char>, name: Option<Seq<char>>) -> JsonView {
    match name {
        Some(name) => JsonView::Object(
            seq![
                ("clientId"@, JsonView::String(client_id)),
                ("name"@, JsonView::String(name)),
            ],
        ),
        None => JsonView::Object(seq![("clientId"@, JsonView::String(client_id))]),
    }
}

proof fn lemma_client(client_id: Seq<char>, name: Option<Seq<char>>)
    ensures
        session_update::client_json(client_id, name) == client(client_id, name),
{
    lemma_names();
    reveal_with_fuel(crate::assoc::index_of, 3);
    match name {
        Some(name) => {
            assert(session_update::client_json(client_id, Some(name))->Object_0
                =~= client(client_id, Some(name))->Object_0);
        },
        None => {
            assert(session_update::client_json(client_id, None)->Object_0
                =~= client(client_id, None)->Object_0);
        },
    }
}

/// Of a peer that attached, the others hear who it is.
pub proof fn law_peer_joined_says(
    room_id: Seq<char>,
    peer_id: Seq<char>,
    peer_name: Option<Seq<char>>,
    role: Option<Seq<char>>,
)
    ensures
        ({
            let frame = amux::peer_joined_frame(room_id, peer_id, peer_name, role);
            &&& notifies(frame, "amux/peer_joined"@)
            &&& param(frame, "roomId"@) == Some(JsonView::String(room_id))
            &&& param(frame, "peerId"@) == Some(JsonView::String(peer_id))
            &&& param(frame, "peerName"@) == json::text_opt(peer_name)
            &&& param(frame, "role"@) == json::text_opt(role)
        }),
{
    broadcast use json::lemma_get_field;

    lemma_names();
}

/// Of a peer that left, the others hear who it was.
pub proof fn law_peer_left_says(
    room_id: Seq<char>,
    peer_id: Seq<char>,
)
    ensures
        ({
            let frame = amux::peer_left_frame(room_id, peer_id);
            &&& notifies(frame, "amux/peer_left"@)
            &&& param(frame, "roomId"@) == Some(JsonView::String(room_id))
            &&& param(frame, "peerId"@) == Some(JsonView::String(peer_id))
        }),
{
    broadcast use json::lemma_get_field;

    lemma_names();
}

/// A peer hears where the agent runs.
pub proof fn law_session_context_says(
    room_id: Seq<char>,
    cwd: Seq<char>,
)
    ensures
        ({
            let frame = amux::session_context_frame(room_id, cwd);
            &&& notifies(frame, "amux/session_context"@)
            &&& param(frame, "roomId"@) == Some(JsonView::String(room_id))
            &&& param(frame, "cwd"@) == Some(JsonView::String(cwd))
        }),
{
    broadcast use json::lemma_get_field;

    lemma_names();
}

/// Of a turn that starts, the peers hear its id, whose it is, the prompt as it
/// is, and which turn it takes the place of.
pub proof fn law_turn_started_says(
    room_id: Seq<char>,
    turn_id: AmuxTurnId,
    peer_id: Seq<char>,
    peer_name: Option<Seq<char>>,
    role: Option<Seq<char>>,
    content: JsonView,
    supersedes: Option<AmuxTurnId>,
)
    ensures
        ({
            let frame = amux::turn_started_frame(room_id, turn_id, peer_id, peer_name, role, content, supersedes);
            &&& notifies(frame, "amux/turn_started"@)
            &&& param(frame, "roomId"@) == Some(JsonView::String(room_id))
            &&& param(frame, "amuxTurnId"@) == Some(JsonView::String(turn_id.text()))
            &&& param(frame, "peerId"@) == Some(JsonView::String(peer_id))
            &&& param(frame, "peerName"@) == json::text_opt(peer_name)
            &&& param(frame, "role"@) == json::text_opt(role)
            &&& param(frame, "content"@) == Some(content)
            &&& param(frame, "supersedesTurnId"@) == turn_opt(supersedes)
        }),
{
    broadcast use json::lemma_get_field;

    lemma_names();
}

/// Of a turn that ends, the peers hear its id and the stop reason as the agent
/// gave it.
pub proof fn law_turn_complete_says(
    room_id: Seq<char>,
    turn_id: AmuxTurnId,
    stop_reason: JsonView,
)
    ensures
        ({
            let frame = amux::turn_complete_frame(room_id, turn_id, stop_reason);
            &&& notifies(frame, "amux/turn_complete"@)
            &&& param(frame, "roomId"@) == Some(JsonView::String(room_id))
            &&& param(frame, "amuxTurnId"@) == Some(JsonView::String(turn_id.text()))
            &&& param(frame, "stopReason"@) == Some(stop_reason)
        }),
{
    broadcast use json::lemma_get_field;

    lemma_names();
}

/// Whether a turn is held, and by whom.
pub proof fn law_session_busy_says(
    room_id: Seq<char>,
    busy: bool,
    held_by: Option<Seq<char>>,
)
    ensures
        ({
            let frame = amux::session_busy_frame(room_id, busy, held_by);
            &&& notifies(frame, "amux/session_busy"@)
            &&& param(frame, "roomId"@) == Some(JsonView::String(room_id))
            &&& param(frame, "busy"@) == Some(JsonView::Bool(busy))
            &&& param(frame, "heldBy"@) == json::text_opt(held_by)
        }),
{
    broadcast use json::lemma_get_field;

    lemma_names();
}

/// Of a turn that somebody cancels, the peers hear its id, who cancels it,
/// whose it was, and why.
pub proof fn law_turn_cancelled_says(
    room_id: Seq<char>,
    turn_id: AmuxTurnId,
    cancelled_by: Seq<char>,
    original_driver: Seq<char>,
    reason: Option<Seq<char>>,
)
    ensures
        ({
            let frame = amux::turn_cancelled_frame(room_id, turn_id, cancelled_by, original_driver, reason);
            &&& notifies(frame, "amux/turn_cancelled"@)
            &&& param(frame, "roomId"@) == Some(JsonView::String(room_id))
            &&& param(frame, "amuxTurnId"@) == Some(JsonView::String(turn_id.text()))
            &&& param(frame, "cancelledBy"@) == Some(JsonView::String(cancelled_by))
            &&& param(frame, "originalDriver"@) == Some(JsonView::String(original_driver))
            &&& param(frame, "reason"@) == json::text_opt(reason)
        }),
{
    broadcast use json::lemma_get_field;

    lemma_names();
}

/// Of a prompt that is queued, the peers hear its id, whose it is, and its
/// whole text.
pub proof fn law_queue_item_added_says(
    room_id: Seq<char>,
    queue_item_id: Seq<char>,
    peer_id: Seq<char>,
    peer_name: Option<Seq<char>>,
    role: Option<Seq<char>>,
    text: Seq<char>,
)
    ensures
        ({
            let frame = amux::queue_item_added_frame(room_id, queue_item_id, peer_id, peer_name, role, text);
            &&& notifies(frame, "amux/queue_item_added"@)
            &&& param(frame, "roomId"@) == Some(JsonView::String(room_id))
            &&& param(frame, "queueItemId"@) == Some(JsonView::String(queue_item_id))
            &&& param(frame, "peerId"@) == Some(JsonView::String(peer_id))
            &&& param(frame, "peerName"@) == json::text_opt(peer_name)
            &&& param(frame, "role"@) == json::text_opt(role)
            &&& param(frame, "text"@) == Some(JsonView::String(text))
            &&& param(frame, "status"@) == Some(JsonView::String("queued"@))
        }),
{
    broadcast use json::lemma_get_field;

    lemma_names();
}

/// Of a queued prompt that is submitted, the peers hear which one it is and
/// which turn it is now.
pub proof fn law_queue_item_submitted_says(
    room_id: Seq<char>,
    queue_item_id: Seq<char>,
    turn_id: AmuxTurnId,
)
    ensures
        ({
            let frame = amux::queue_item_submitted_frame(room_id, queue_item_id, turn_id);
            &&& notifies(frame, "amux/queue_item_submitted"@)
            &&& param(frame, "roomId"@) == Some(JsonView::String(room_id))
            &&& param(frame, "queueItemId"@) == Some(JsonView::String(queue_item_id))
            &&& param(frame, "amuxTurnId"@) == Some(JsonView::String(turn_id.text()))
        }),
{
    broadcast use json::lemma_get_field;

    lemma_names();
}

/// Of a queued prompt whose turn ends, the peers hear which one it is, which
/// turn it was, and the stop reason as the agent gave it.
pub proof fn law_queue_item_completed_says(
    room_id: Seq<char>,
    queue_item_id: Seq<char>,
    turn_id: AmuxTurnId,
    stop_reason: JsonView,
)
    ensures
        ({
            let frame = amux::queue_item_completed_frame(room_id, queue_item_id, turn_id, stop_reason);
            &&& notifies(frame, "amux/queue_item_completed"@)
            &&& param(frame, "roomId"@) == Some(JsonView::String(room_id))
            &&& param(frame, "queueItemId"@) == Some(JsonView::String(queue_item_id))
            &&& param(frame, "amuxTurnId"@) == Some(JsonView::String(turn_id.text()))
            &&& param(frame, "stopReason"@) == Some(stop_reason)
        }),
{
    broadcast use json::lemma_get_field;

    lemma_names();
}

/// Of a queued prompt that is taken out, the peers hear which one it is and who
/// took it out.
pub proof fn law_queue_item_removed_says(
    room_id: Seq<char>,
    queue_item_id: Seq<char>,
    removed_by: Seq<char>,
)
    ensures
        ({
            let frame = amux::queue_item_removed_frame(room_id, queue_item_id, removed_by);
            &&& notifies(frame, "amux/queue_item_removed"@)
            &&& param(frame, "roomId"@) == Some(JsonView::String(room_id))
            &&& param(frame, "queueItemId"@) == Some(JsonView::String(queue_item_id))
            &&& param(frame, "removedBy"@) == Some(JsonView::String(removed_by))
            &&& param(frame, "reason"@) == Some(JsonView::String("unqueued"@))
        }),
{
    broadcast use json::lemma_get_field;

    lemma_names();
}

/// Of a queued prompt whose owner left, the peers hear which one it is and
/// whose it was.
pub proof fn law_queue_item_orphaned_says(
    room_id: Seq<char>,
    queue_item_id: Seq<char>,
    peer_id: Seq<char>,
)
    ensures
        ({
            let frame = amux::queue_item_orphaned_frame(room_id, queue_item_id, peer_id);
            &&& notifies(frame, "amux/queue_item_orphaned"@)
            &&& param(frame, "roomId"@) == Some(JsonView::String(room_id))
            &&& param(frame, "queueItemId"@) == Some(JsonView::String(queue_item_id))
            &&& param(frame, "peerId"@) == Some(JsonView::String(peer_id))
        }),
{
    broadcast use json::lemma_get_field;

    lemma_names();
}

/// Where streamed history begins, the peer hears which part it is, in which
/// order, of which generation, up to where, and how many frames it has.
pub proof fn law_replay_started_says(
    room_id: Seq<char>,
    phase: Seq<char>,
    replay_order: Seq<char>,
    generation: u64,
    boundary: u64,
    frame_count: usize,
)
    ensures
        ({
            let frame = amux::replay_started_frame(room_id, phase, replay_order, generation, boundary, frame_count);
            &&& notifies(frame, "amux/replay_started"@)
            &&& param(frame, "roomId"@) == Some(JsonView::String(room_id))
            &&& param(frame, "phase"@) == Some(JsonView::String(phase))
            &&& param(frame, "replayOrder"@) == Some(JsonView::String(replay_order))
            &&& param(frame, "generation"@) == Some(JsonView::Int(generation as int))
            &&& param(frame, "replayBoundarySeq"@) == Some(JsonView::Int(boundary as int))
            &&& param(frame, "frameCount"@) == Some(JsonView::Int(frame_count as int))
        }),
{
    broadcast use json::lemma_get_field;

    lemma_names();
}

/// Where streamed history ends, the peer hears which part it is, in which
/// order, of which generation, up to where, and how many frames it has.
pub proof fn law_replay_complete_says(
    room_id: Seq<char>,
    phase: Seq<char>,
    replay_order: Seq<char>,
    generation: u64,
    boundary: u64,
    frame_count: usize,
)
    ensures
        ({
            let frame = amux::replay_complete_frame(room_id, phase, replay_order, generation, boundary, frame_count);
            &&& notifies(frame, "amux/replay_complete"@)
            &&& param(frame, "roomId"@) == Some(JsonView::String(room_id))
            &&& param(frame, "phase"@) == Some(JsonView::String(phase))
            &&& param(frame, "replayOrder"@) == Some(JsonView::String(replay_order))
            &&& param(frame, "generation"@) == Some(JsonView::Int(generation as int))
            &&& param(frame, "replayBoundarySeq"@) == Some(JsonView::Int(boundary as int))
            &&& param(frame, "frameCount"@) == Some(JsonView::Int(frame_count as int))
        }),
{
    broadcast use json::lemma_get_field;

    lemma_names();
}

/// Of a request of the agent, the log keeps its id, its method, its parameters
/// as they are, and the turn it came in.
pub proof fn law_agent_request_opened_says(
    room_id: Seq<char>,
    request_id: JsonView,
    request_method: Seq<char>,
    request_params: Option<JsonView>,
    turn_id: Option<AmuxTurnId>,
)
    ensures
        ({
            let frame = amux::agent_request_opened_frame(room_id, request_id, request_method, request_params, turn_id);
            &&& notifies(frame, "amux/agent_request_opened"@)
            &&& param(frame, "roomId"@) == Some(JsonView::String(room_id))
            &&& param(frame, "requestId"@) == Some(request_id)
            &&& param(frame, "requestMethod"@) == Some(JsonView::String(request_method))
            &&& param(frame, "requestParams"@) == request_params
            &&& param(frame, "amuxTurnId"@) == turn_opt(turn_id)
        }),
{
    broadcast use json::lemma_get_field;

    lemma_names();
}

/// Of a request of the agent that is settled, the peers hear its id, who
/// settled it, and the reply as it is.
pub proof fn law_agent_request_resolved_says(
    room_id: Seq<char>,
    request_id: JsonView,
    resolved_by: Seq<char>,
    result: Option<JsonView>,
    error: Option<JsonView>,
)
    ensures
        ({
            let frame = amux::agent_request_resolved_frame(room_id, request_id, resolved_by, result, error);
            &&& notifies(frame, "amux/agent_request_resolved"@)
            &&& param(frame, "roomId"@) == Some(JsonView::String(room_id))
            &&& param(frame, "requestId"@) == Some(request_id)
            &&& param(frame, "resolvedBy"@) == Some(JsonView::String(resolved_by))
            &&& param(frame, "result"@) == result
            &&& param(frame, "error"@) == error
        }),
{
    broadcast use json::lemma_get_field;

    lemma_names();
}

/// Of a steer, the peers hear who steers, how, which turn, and the whole text.
pub proof fn law_steer_says(
    room_id: Seq<char>,
    mode: Seq<char>,
    peer_id: Seq<char>,
    peer_name: Option<Seq<char>>,
    role: Option<Seq<char>>,
    turn_id: AmuxTurnId,
    text: Seq<char>,
)
    ensures
        ({
            let frame = control::steer_frame(room_id, mode, peer_id, peer_name, role, turn_id, text);
            &&& notifies(frame, "amux/control_submitted"@)
            &&& param(frame, "roomId"@) == Some(JsonView::String(room_id))
            &&& param(frame, "kind"@) == Some(JsonView::String("steer"@))
            &&& param(frame, "mode"@) == Some(JsonView::String(mode))
            &&& param(frame, "peerId"@) == Some(JsonView::String(peer_id))
            &&& param(frame, "peerName"@) == json::text_opt(peer_name)
            &&& param(frame, "role"@) == json::text_opt(role)
            &&& param(frame, "amuxTurnId"@) == Some(JsonView::String(turn_id.text()))
            &&& param(frame, "text"@) == Some(JsonView::String(text))
        }),
{
    broadcast use json::lemma_get_field;

    lemma_names();
}

/// Of a segment that opens, the peers hear its id, the session it belongs to,
/// when it opened, and where it comes from.
pub proof fn law_segment_started_says(
    room_id: Seq<char>,
    segment_id: SegmentId,
    acp_session_id: Option<Seq<char>>,
    opened_at: Seq<char>,
    provenance: HermesProvenanceView,
)
    ensures
        ({
            let frame = amux::segment_started_frame(room_id, segment_id, acp_session_id, opened_at, provenance);
            &&& notifies(frame, "amux/segment_started"@)
            &&& param(frame, "roomId"@) == Some(JsonView::String(room_id))
            &&& param(frame, "segmentId"@) == Some(JsonView::String(segment_id.text()))
            &&& param(frame, "acpSessionId"@) == json::text_opt(acp_session_id)
            &&& param(frame, "openedAt"@) == Some(JsonView::String(opened_at))
            &&& param(frame, "provenance"@) == provenance.json_opt()
        }),
{
    broadcast use json::lemma_get_field;

    lemma_names();
}

/// Of a segment that closes, the peers hear its id, when and why it closed, and
/// what follows it.
pub proof fn law_segment_ended_says(
    room_id: Seq<char>,
    segment_id: SegmentId,
    closed_at: Seq<char>,
    end_reason: EndReason,
    successor: Option<SegmentId>,
)
    ensures
        ({
            let frame = amux::segment_ended_frame(room_id, segment_id, closed_at, end_reason, successor);
            &&& notifies(frame, "amux/segment_ended"@)
            &&& param(frame, "roomId"@) == Some(JsonView::String(room_id))
            &&& param(frame, "segmentId"@) == Some(JsonView::String(segment_id.text()))
            &&& param(frame, "closedAt"@) == Some(JsonView::String(closed_at))
            &&& param(frame, "endReason"@) == Some(JsonView::String(end_reason.text()))
            &&& param(frame, "successorSegmentId"@) == segment_opt(successor)
        }),
{
    broadcast use json::lemma_get_field;

    lemma_names();
}

/// Of a compaction that begins, the peers hear what was reported of it, part by
/// part.
pub proof fn law_compaction_started_says(event: ContextCompactionStarted<'_>)
    ensures
        ({
            let frame = event.frame();
            &&& notifies(frame, "amux/context_compaction_started"@)
            &&& param(frame, "roomId"@) == Some(JsonView::String(event.room_id@))
            &&& param(frame, "source"@) == Some(JsonView::String(event.source@))
            &&& param(frame, "hermesSessionId"@) == json::text_opt(event.hermes_session_id.deep_view())
            &&& param(frame, "messagesBefore"@) == json::number_opt(event.messages_before)
            &&& param(frame, "tokensApproxBefore"@) == json::number_opt(event.tokens_approx_before)
            &&& param(frame, "model"@) == json::text_opt(event.model.deep_view())
            &&& param(frame, "focus"@) == json::text_opt(event.focus.deep_view())
        }),
{
    broadcast use json::lemma_get_field;

    lemma_names();
}

/// Of a compaction that is done, the peers hear what was reported of it, part
/// by part.
pub proof fn law_compaction_done_says(event: ContextCompactionDone<'_>)
    ensures
        ({
            let frame = event.frame();
            &&& notifies(frame, "amux/context_compaction_done"@)
            &&& param(frame, "roomId"@) == Some(JsonView::String(event.room_id@))
            &&& param(frame, "source"@) == Some(JsonView::String(event.source@))
            &&& param(frame, "hermesSessionId"@) == json::text_opt(event.hermes_session_id.deep_view())
            &&& param(frame, "messagesBefore"@) == json::number_opt(event.messages_before)
            &&& param(frame, "messagesAfter"@) == json::number_opt(event.messages_after)
            &&& param(frame, "tokensApproxAfter"@) == json::number_opt(event.tokens_approx_after)
            &&& param(frame, "compressionCount"@) == Some(JsonView::Int(event.compression_count as int))
            &&& param(frame, "successorSegmentId"@) == segment_opt(event.successor_segment_id)
            &&& param(frame, "previousSegmentId"@) == segment_opt(event.previous_segment_id)
        }),
{
    broadcast use json::lemma_get_field;

    lemma_names();
}

/// Of a control, the peers hear what it is, who sent it, which turn it is
/// about, and its whole text.
pub proof fn law_control_submitted_says(event: ControlSubmitted<'_>)
    ensures
        ({
            let frame = event.frame();
            &&& notifies(frame, "amux/control_submitted"@)
            &&& param(frame, "roomId"@) == Some(JsonView::String(event.room_id@))
            &&& param(frame, "kind"@) == Some(JsonView::String(event.kind@))
            &&& param(frame, "mode"@) == Some(JsonView::String(event.mode@))
            &&& param(frame, "peerId"@) == Some(JsonView::String(event.peer_id@))
            &&& param(frame, "peerName"@) == json::text_opt(event.peer_name.deep_view())
            &&& param(frame, "role"@) == json::text_opt(event.role.deep_view())
            &&& param(frame, "amuxTurnId"@) == turn_opt(event.amux_turn_id)
            &&& param(frame, "text"@) == Some(JsonView::String(event.text@))
        }),
{
    broadcast use json::lemma_get_field;

    lemma_names();
}

/// Of a prompt, plain clients hear the prompt as it is and who sent it.
pub proof fn law_prompt_received_says(
    session_id: Seq<char>,
    prompt: JsonView,
    client_id: Seq<char>,
    client_name: Option<Seq<char>>,
)
    ensures
        ({
            let frame = session_update::prompt_received_frame(session_id, prompt, client_id, client_name);
            &&& notifies(frame, "session/update"@)
            &&& param(frame, "sessionId"@) == Some(JsonView::String(session_id))
            &&& update(frame, "type"@) == Some(JsonView::String("prompt_received"@))
            &&& update(frame, "prompt"@) == Some(prompt)
            &&& update(frame, "sentBy"@) == Some(client(client_id, client_name))
        }),
{
    broadcast use json::lemma_get_field;

    lemma_names();
    lemma_client(client_id, client_name);
}

/// Of a turn that ends, plain clients hear the stop reason as the agent gave
/// it.
pub proof fn law_update_turn_complete_says(
    session_id: Seq<char>,
    stop_reason: JsonView,
)
    ensures
        ({
            let frame = session_update::turn_complete_frame(session_id, stop_reason);
            &&& notifies(frame, "session/update"@)
            &&& param(frame, "sessionId"@) == Some(JsonView::String(session_id))
            &&& update(frame, "type"@) == Some(JsonView::String("turn_complete"@))
            &&& update(frame, "stopReason"@) == Some(stop_reason)
        }),
{
    broadcast use json::lemma_get_field;

    lemma_names();
}

/// Of a permission that is settled, plain clients hear which request it was,
/// who settled it, what was chosen, and the reply as it is.
pub proof fn law_permission_resolved_says(
    session_id: Seq<char>,
    request_id: JsonView,
    resolved_by: Seq<char>,
    resolved_by_name: Option<Seq<char>>,
    chosen: Option<Seq<char>>,
    result: Option<JsonView>,
    error: Option<JsonView>,
)
    ensures
        ({
            let frame = session_update::permission_resolved_frame(session_id, request_id, resolved_by, resolved_by_name, chosen, result, error);
            &&& notifies(frame, "session/update"@)
            &&& param(frame, "sessionId"@) == Some(JsonView::String(session_id))
            &&& update(frame, "type"@) == Some(JsonView::String("permission_resolved"@))
            &&& update(frame, "requestId"@) == Some(request_id)
            &&& update(frame, "resolvedBy"@) == Some(client(resolved_by, resolved_by_name))
            &&& update(frame, "chosenOptionId"@) == json::text_opt(chosen)
            &&& update(frame, "result"@) == result
            &&& update(frame, "error"@) == error
        }),
{
    broadcast use json::lemma_get_field;

    lemma_names();
    lemma_client(resolved_by, resolved_by_name);
}

/// Of a client that is gone, plain clients hear who it was.
pub proof fn law_client_disconnected_says(
    session_id: Seq<char>,
    client_id: Seq<char>,
    client_name: Option<Seq<char>>,
)
    ensures
        ({
            let frame = session_update::client_disconnected_frame(session_id, client_id, client_name);
            &&& notifies(frame, "session/update"@)
            &&& param(frame, "sessionId"@) == Some(JsonView::String(session_id))
            &&& update(frame, "type"@) == Some(JsonView::String("client_disconnected"@))
            &&& update(frame, "client"@) == Some(client(client_id, client_name))
        }),
{
    broadcast use json::lemma_get_field;

    lemma_names();
    lemma_client(client_id, client_name);
}

/// Turns, segments and queued prompts go by their kind and their number: two of the
/// same kind with different numbers have different ids.
pub proof fn law_ids_show_kind_and_number(a: u64, b: u64)
    ensures
        AmuxTurnId(a).text() == "at-"@ + text::decimal_of(a as nat),
        SegmentId(a).text() == "seg-"@ + text::decimal_of(a as nat),
        control::queue_item_text(a) == "q-"@ + text::decimal_of(a as nat),
        a != b ==> AmuxTurnId(a).text() != AmuxTurnId(b).text(),
        a != b ==> SegmentId(a).text() != SegmentId(b).text(),
        a != b ==> control::queue_item_text(a) != control::queue_item_text(b),
        AmuxTurnId::json_opt(Some(AmuxTurnId(a))) == Some(JsonView::String(AmuxTurnId(a).text())),
        AmuxTurnId::json_opt(None) is None,
        SegmentId::json_opt(Some(SegmentId(a))) == Some(JsonView::String(SegmentId(a).text())),
        SegmentId::json_opt(None) is None,
{
    lemma_apart("at-"@, a, b);
    lemma_apart("seg-"@, a, b);
    lemma_apart("q-"@, a, b);
}

proof fn lemma_apart(prefix: Seq<char>, a: u64, b: u64)
    ensures
        a != b ==> prefix + text::decimal_of(a as nat) != prefix + text::decimal_of(b as nat),
{
    scan::law_decimal_reads_back(a as nat, u64::MAX as nat);
    scan::law_decimal_reads_back(b as nat, u64::MAX as nat);
    let (x, y) = (text::decimal_of(a as nat), text::decimal_of(b as nat));
    let n = prefix.len() as int;
    assert((prefix + x).skip(n) =~= x);
    assert((prefix + y).skip(n) =~= y);
}

/// Why a segment ended has a name.
pub proof fn law_ends_have_names()
    ensures
        EndReason::SessionLoad.json() == JsonView::String("session_load"@),
        EndReason::HermesCompression.json() == JsonView::String("hermes_compression"@),
        EndReason::AcpSessionIdChanged.json() == JsonView::String("acp_session_id_changed"@),
{
}

/// Where a segment comes from is told part by part, as far as it is known: which
/// session it is of the agent's, and which ones it came from.
pub proof fn law_provenance_says(v: HermesProvenanceView)
    ensures
        ({
            let told = v.json();
            &&& told.get("acpSessionId"@) == json::text_opt(v.acp_session_id)
            &&& told.get("hermesSessionId"@) == json::text_opt(v.hermes_session_id)
            &&& told.get("parentHermesSessionId"@) == json::text_opt(v.parent_hermes_session_id)
            &&& told.get("rootHermesSessionId"@) == json::text_opt(v.root_hermes_session_id)
            &&& told.get("sessionKind"@) == json::text_opt(v.session_kind)
            &&& told.get("creatorKind"@) == json::text_opt(v.creator_kind)
        }),
{
    broadcast use json::lemma_get_field;

    lemma_names();
    assert(forall|key: Seq<char>| (#[trigger] JsonView::object().get(key)) is None);
}

/// The rest of where a segment comes from: how it branched off, how often it was
/// compressed, and what was last reported.
pub proof fn law_provenance_says_the_rest(v: HermesProvenanceView)
    ensures
        ({
            let told = v.json();
            &&& told.get("edgeKind"@) == json::text_opt(v.edge_kind)
            &&& v.compression_depth is None ==> told.get("compressionDepth"@) is None
            &&& v.compression_depth matches Some(depth) ==> told.get("compressionDepth"@) == Some(
                JsonView::Int(depth as int),
            )
            &&& told.get("lastMode"@) == json::text_opt(v.last_mode)
            &&& told.get("lastReason"@) == json::text_opt(v.last_reason)
        }),
{
    broadcast use json::lemma_get_field;

    lemma_names();
    assert(forall|key: Seq<char>| (#[trigger] JsonView::object().get(key)) is None);
}

/// The lineage of a segment is told session by session, in its order.
pub proof fn law_lineage_is_told_in_order(v: HermesProvenanceView, i: int)
    ensures
        v.lineage_hermes_session_ids is None ==> v.json().get("lineageHermesSessionIds"@) is None,
        v.lineage_hermes_session_ids matches Some(ids) ==> {
            let told = v.json().get("lineageHermesSessionIds"@)->0->Array_0;
            &&& v.json().get("lineageHermesSessionIds"@) == Some(JsonView::Array(told))
            &&& told.len() == ids.len()
            &&& 0 <= i < ids.len() ==> told[i] == JsonView::String(ids[i])
        },
{
    broadcast use json::lemma_get_field;

    lemma_names();
    assert(JsonView::object().get("lineageHermesSessionIds"@) is None);
}

/// Where nothing is known of where a segment comes from, nothing is told.
pub proof fn law_unknown_provenance_is_left_out(v: HermesProvenanceView)
    ensures
        v.json_opt() matches Some(told) ==> told == v.json(),
        v.json_opt() is None <==> v.acp_session_id is None && v.hermes_session_id is None
            && v.parent_hermes_session_id is None && v.root_hermes_session_id is None
            && v.session_kind is None && v.creator_kind is None && v.edge_kind is None
            && v.compression_depth is None && v.lineage_hermes_session_ids is None
            && v.last_mode is None && v.last_reason is None,
{
}

} // verus!

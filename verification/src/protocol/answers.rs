//! What the answers of the mux show, member by member.

use crate::json;
use crate::json::{JsonView, ToJson};
use crate::protocol::attach::{
    AttachParamsView, DetachParams, AttachActiveTurn, AttachActiveTurnView, AttachAmuxMeta,
    AttachAmuxMetaView, AttachCompactionSummary, AttachCompactionSummaryView,
    AttachMeta, AttachPendingPermission,
    AttachPendingPermissionView, AttachQueueItem, AttachQueueItemView,
    AttachResult, AttachResultView, AttachSnapshot,
    AttachSnapshotView, BaselineAttachResult, BaselineAttachResultView,
    ConnectedClient, ConnectedClientView, DetachResult,
    DetachResultView, HistoryDelivery, HistoryEntry,
    HistoryEntryView, HistoryPolicy, ReplayOrder,
    SegmentSummary, SegmentSummaryView,
};
use crate::protocol::names::lemma_names;
use crate::protocol::telling::segment_opt;
use vstd::prelude::*;

verus! {

/// The documents of some values, in their order.
pub open spec fn listed<T: ToJson>(items: Seq<T::V>) -> JsonView {
    JsonView::Array(Seq::new(items.len(), |i: int| T::json_of(items[i])))
}

/// The documents of a history, where there is one.
pub open spec fn history_opt(history: Option<Seq<HistoryEntryView>>) -> Option<JsonView> {
    match history {
        Some(items) => Some(listed::<HistoryEntry>(items)),
        None => None,
    }
}

/// A list shows every item once, in its place.
pub proof fn law_lists_show_every_item<T: ToJson>(items: Seq<T::V>)
    ensures
        json::array_json::<T>(items) == listed::<T>(items),
{
    assert(items.map_values(|item: T::V| T::json_of(item)) =~= Seq::new(
        items.len(),
        |i: int| T::json_of(items[i]),
    ));
}

/// A client is shown by its id and its name.
pub proof fn law_client_shows(v: ConnectedClientView)
    ensures
        ({
            let shown = ConnectedClient::json_of(v);
            &&& shown.get("clientId"@) == Some(JsonView::String(v.client_id))
            &&& shown.get("name"@) == json::text_opt(v.name)
        }),
{
    broadcast use json::lemma_get_field;

    lemma_names();
}

/// An entry of the history shows the method and the parameters of the frame, as
/// they are.
pub proof fn law_history_entry_shows(v: HistoryEntryView)
    ensures
        ({
            let shown = HistoryEntry::json_of(v);
            &&& shown.get("method"@) == Some(JsonView::String(v.method))
            &&& shown.get("params"@) == Some(v.params)
        }),
{
    broadcast use json::lemma_get_field;

    lemma_names();
}

/// The active turn is shown by its id and by whose it is.
pub proof fn law_active_turn_shows(v: AttachActiveTurnView)
    ensures
        ({
            let shown = AttachActiveTurn::json_of(v);
            &&& shown.get("amuxTurnId"@) == Some(JsonView::String(v.amux_turn_id))
            &&& shown.get("peerId"@) == Some(JsonView::String(v.peer_id))
        }),
{
    broadcast use json::lemma_get_field;

    lemma_names();
}

/// A prompt that waits is shown by its id, whose it is, why it waits, and that
/// it does.
pub proof fn law_queue_item_shows(v: AttachQueueItemView)
    ensures
        ({
            let shown = AttachQueueItem::json_of(v);
            &&& shown.get("queueItemId"@) == json::text_opt(v.queue_item_id)
            &&& shown.get("peerId"@) == Some(JsonView::String(v.peer_id))
            &&& shown.get("kind"@) == Some(JsonView::String(v.kind))
            &&& shown.get("status"@) == Some(JsonView::String(v.status))
        }),
{
    broadcast use json::lemma_get_field;

    lemma_names();
}

/// A permission that waits is shown by the id of the request, and by what is
/// known of the tool call.
pub proof fn law_pending_permission_shows(v: AttachPendingPermissionView)
    ensures
        ({
            let shown = AttachPendingPermission::json_of(v);
            &&& shown.get("requestId"@) == Some(v.request_id)
            &&& shown.get("toolName"@) == json::text_opt(v.tool_name)
            &&& shown.get("summary"@) == json::text_opt(v.summary)
        }),
{
    broadcast use json::lemma_get_field;

    lemma_names();
}

/// A segment is shown by its id, its session, when and where it opened, and
/// when, where and why it closed.
pub proof fn law_segment_shows(v: SegmentSummaryView)
    ensures
        ({
            let shown = SegmentSummary::json_of(v);
            &&& shown.get("id"@) == Some(JsonView::String(v.id.text()))
            &&& shown.get("acpSessionId"@) == json::text_opt(v.acp_session_id)
            &&& shown.get("openedAt"@) == Some(JsonView::String(v.opened_at))
            &&& shown.get("openedReplaySeq"@) == Some(JsonView::Int(v.opened_replay_seq as int))
            &&& shown.get("closedAt"@) == json::text_opt(v.closed_at)
            &&& shown.get("closedReplaySeq"@) == json::number_opt(v.closed_replay_seq)
            &&& shown.get("endReason"@) == match v.end_reason {
                Some(reason) => Some(JsonView::String(reason.text())),
                None => None,
            }
            &&& shown.get("provenance"@) == v.provenance.json_opt()
        }),
{
    broadcast use json::lemma_get_field;

    lemma_names();
}

/// A compaction is shown by whether it goes on, where it was seen, and when it
/// began and ended.
pub proof fn law_compaction_shows(v: AttachCompactionSummaryView)
    ensures
        ({
            let shown = AttachCompactionSummary::json_of(v);
            &&& shown.get("active"@) == Some(JsonView::Bool(v.active))
            &&& shown.get("lastSource"@) == json::text_opt(v.last_source)
            &&& shown.get("lastStartedAt"@) == json::text_opt(v.last_started_at)
            &&& shown.get("lastCompletedAt"@) == json::text_opt(v.last_completed_at)
        }),
{
    broadcast use json::lemma_get_field;

    lemma_names();
}

/// A snapshot shows every part of the state of the room.
pub proof fn law_snapshot_shows(v: AttachSnapshotView)
    ensures
        ({
            let shown = AttachSnapshot::json_of(v);
            &&& shown.get("connectedClients"@) == Some(listed::<ConnectedClient>(v.connected_clients))
            &&& shown.get("selfPeer"@) == Some(ConnectedClient::json_of(v.self_peer))
            &&& shown.get("activeTurn"@) == match v.active_turn {
                Some(part) => Some(AttachActiveTurn::json_of(part)),
                None => None,
            }
            &&& shown.get("queue"@) == Some(listed::<AttachQueueItem>(v.queue))
            &&& shown.get("pendingPermissions"@) == Some(listed::<AttachPendingPermission>(v.pending_permissions))
            &&& shown.get("replayBoundarySeq"@) == Some(JsonView::Int(v.replay_boundary_seq as int))
            &&& shown.get("replayGeneration"@) == Some(JsonView::Int(v.replay_generation as int))
            &&& shown.get("segments"@) == if v.segments.len() == 0 {
                None
            } else {
                Some(listed::<SegmentSummary>(v.segments))
            }
            &&& shown.get("activeSegmentId"@) == segment_opt(v.active_segment_id)
            &&& shown.get("compressionCount"@) == Some(JsonView::Int(v.compression_count as int))
            &&& shown.get("compaction"@) == match v.compaction {
                Some(part) => Some(AttachCompactionSummary::json_of(part)),
                None => None,
            }
        }),
{
    broadcast use json::lemma_get_field;

    lemma_names();
    law_lists_show_every_item::<ConnectedClient>(v.connected_clients);
    law_lists_show_every_item::<AttachQueueItem>(v.queue);
    law_lists_show_every_item::<AttachPendingPermission>(v.pending_permissions);
    law_lists_show_every_item::<SegmentSummary>(v.segments);
}

/// The metadata of an answer shows who is attached, the order and the delivery
/// that were applied, and the snapshot.
pub proof fn law_attach_meta_shows(v: AttachAmuxMetaView)
    ensures
        ({
            let shown = AttachAmuxMeta::json_of(v);
            &&& shown.get("connectedClients"@) == Some(listed::<ConnectedClient>(v.connected_clients))
            &&& shown.get("appliedReplayOrder"@) == Some(JsonView::String(v.applied_replay_order.text()))
            &&& shown.get("appliedHistoryDelivery"@) == Some(JsonView::String(v.applied_history_delivery.text()))
            &&& shown.get("snapshot"@) == match v.snapshot {
                Some(part) => Some(AttachSnapshot::json_of(part)),
                None => None,
            }
        }),
{
    broadcast use json::lemma_get_field;

    lemma_names();
    law_lists_show_every_item::<ConnectedClient>(v.connected_clients);
}

/// The answer of a room shows the session, the client, the policy, the history
/// where there is one, and the metadata.
pub proof fn law_attach_answer_shows(v: AttachResultView)
    ensures
        ({
            let shown = AttachResult::json_of(v);
            &&& shown.get("sessionId"@) == Some(JsonView::String(v.session_id))
            &&& shown.get("clientId"@) == Some(JsonView::String(v.client_id))
            &&& shown.get("historyPolicy"@) == Some(JsonView::String(v.history_policy.text()))
            &&& shown.get("history"@) == history_opt(v.history)
            &&& shown.get("_meta"@) == Some(AttachMeta::json_of(v.meta))
        }),
{
    broadcast use json::lemma_get_field;

    lemma_names();
    if let Some(items) = v.history {
        law_lists_show_every_item::<HistoryEntry>(items);
    }
}

/// The answer of a session shows the session, the client, the policy, who is
/// attached, and the history where there is one.
pub proof fn law_plain_attach_answer_shows(v: BaselineAttachResultView)
    ensures
        ({
            let shown = BaselineAttachResult::json_of(v);
            &&& shown.get("sessionId"@) == Some(JsonView::String(v.session_id))
            &&& shown.get("clientId"@) == Some(JsonView::String(v.client_id))
            &&& shown.get("historyPolicy"@) == Some(JsonView::String(v.history_policy.text()))
            &&& shown.get("connectedClients"@) == Some(listed::<ConnectedClient>(v.connected_clients))
            &&& shown.get("history"@) == history_opt(v.history)
        }),
{
    broadcast use json::lemma_get_field;

    lemma_names();
    law_lists_show_every_item::<ConnectedClient>(v.connected_clients);
    if let Some(items) = v.history {
        law_lists_show_every_item::<HistoryEntry>(items);
    }
}

/// The answer to a detach shows the session and the status.
pub proof fn law_detach_answer_shows(v: DetachResultView)
    ensures
        ({
            let shown = DetachResult::json_of(v);
            &&& shown.get("sessionId"@) == Some(JsonView::String(v.session_id))
            &&& shown.get("status"@) == Some(JsonView::String(v.status))
        }),
{
    broadcast use json::lemma_get_field;

    lemma_names();
}

/// Policies, orders and deliveries are read back by the names that they are written
/// by, and by no other.
pub proof fn law_names_are_read_back(
    policy: HistoryPolicy,
    order: ReplayOrder,
    delivery: HistoryDelivery,
    json: JsonView,
)
    ensures
        HistoryPolicy::of(JsonView::String(policy.text())) == Some(policy),
        ReplayOrder::of(JsonView::String(order.text())) == Some(order),
        HistoryDelivery::of(JsonView::String(delivery.text())) == Some(delivery),
        json is String && HistoryPolicy::of(json) == Some(policy) ==> json == JsonView::String(
            policy.text(),
        ),
        json is String && ReplayOrder::of(json) == Some(order) ==> json == JsonView::String(
            order.text(),
        ),
        json is String && HistoryDelivery::of(json) == Some(delivery) ==> json
            == JsonView::String(delivery.text()),
{
    lemma_names();
}

/// The names of policies, orders and deliveries.
pub proof fn law_names_are_these()
    ensures
        HistoryPolicy::Full.text() == "full"@,
        HistoryPolicy::FullLineage.text() == "full_lineage"@,
        HistoryPolicy::PendingOnly.text() == "pending_only"@,
        HistoryPolicy::NoHistory.text() == "none"@,
        HistoryPolicy::AfterMessage.text() == "after_message"@,
        ReplayOrder::Chronological.text() == "chronological"@,
        ReplayOrder::NewestTurnFirst.text() == "newest_turn_first"@,
        HistoryDelivery::Response.text() == "response"@,
        HistoryDelivery::Stream.text() == "stream"@,
{
}

/// Whether an object has a text, or nothing, or null under a key.
pub open spec fn text_at(object: JsonView, key: Seq<char>, text: Option<Seq<char>>) -> bool {
    match text {
        Some(text) => object.get(key) == Some(JsonView::String(text)),
        None => object.get(key) is None || object.get(key) == Some(JsonView::Null),
    }
}

/// What a request to attach asks for is read from its members: the session, the
/// client, the policy by its name, and in `_meta.amux` the order and the delivery
/// by theirs. What is absent or null is not asked for.
pub proof fn law_attach_request_is_read(
    object: JsonView,
    session_id: Option<Seq<char>>,
    client_id: Option<Seq<char>>,
    policy: Option<HistoryPolicy>,
    order: Option<ReplayOrder>,
    delivery: Option<HistoryDelivery>,
    meta: JsonView,
    amux: JsonView,
)
    requires
        object is Object,
        text_at(object, "sessionId"@, session_id),
        text_at(object, "clientId"@, client_id),
        text_at(object, "afterMessageId"@, None),
        text_at(object, "historyPolicy"@, match policy {
            Some(policy) => Some(policy.text()),
            None => None,
        }),
        object.get("clientInfo"@) is None,
        order is None && delivery is None || object.get("_meta"@) == Some(meta),
        order is None && delivery is None ==> object.get("_meta"@) is None,
        meta is Object && meta.get("amux"@) == Some(amux) && amux is Object,
        text_at(amux, "replayOrder"@, match order {
            Some(order) => Some(order.text()),
            None => None,
        }),
        text_at(amux, "historyDelivery"@, match delivery {
            Some(delivery) => Some(delivery.text()),
            None => None,
        }),
    ensures
        ({
            let asked = AttachParamsView::of_request(Some(object));
            &&& asked.session_id == session_id
            &&& asked.client_id == client_id
            &&& asked.policy() == match policy {
                Some(HistoryPolicy::AfterMessage) => HistoryPolicy::Full,
                Some(policy) => policy,
                None => HistoryPolicy::Full,
            }
            &&& asked.replay_order() == match order {
                Some(order) => order,
                None => ReplayOrder::Chronological,
            }
            &&& asked.history_delivery() == match delivery {
                Some(delivery) => delivery,
                None => HistoryDelivery::Response,
            }
        }),
{
    lemma_names();
}

/// A request to attach without parameters asks for everything in the plain way.
pub proof fn law_attach_request_without_parameters()
    ensures
        ({
            let asked = AttachParamsView::of_request(None);
            &&& asked.session_id is None
            &&& asked.client_id is None
            &&& asked.policy() == HistoryPolicy::Full
            &&& asked.replay_order() == ReplayOrder::Chronological
            &&& asked.history_delivery() == HistoryDelivery::Response
        }),
{
}

/// A request to detach names the session under `sessionId`, or none.
pub proof fn law_detach_request_is_read(object: JsonView, session_id: Option<Seq<char>>)
    requires
        object is Object,
        text_at(object, "sessionId"@, session_id),
    ensures
        DetachParams::session_of(Some(object)) == session_id,
        DetachParams::session_of(None) is None,
{
}

/// Whether a member is there and is neither null nor a text.
pub open spec fn no_text(object: JsonView, key: Seq<char>) -> bool {
    object.get(key) matches Some(value) && !(value is Null) && !(value is String)
}

/// A request to attach that cannot be read asks for nothing in particular, as one
/// without parameters does: where a member that is to be a text is none, where the
/// policy has no name that there is, and where it is no record at all.
pub proof fn law_unreadable_request_asks_for_nothing(object: JsonView)
    requires
        ({
            ||| !(object is Object) && !(object is Array)
            ||| object is Object && (no_text(object, "sessionId"@) || no_text(object, "clientId"@)
                || no_text(object, "afterMessageId"@))
            ||| object is Object && (object.get("historyPolicy"@) matches Some(
                JsonView::String(name),
            ) && name != "full"@ && name != "full_lineage"@ && name != "pending_only"@ && name
                != "none"@ && name != "after_message"@)
        }),
    ensures
        AttachParamsView::of_request(Some(object)) == AttachParamsView::of_request(None),
{
    lemma_names();
}

/// The parameters of a request to attach may also be a list: each item is then what
/// the member in its place is, and what is missing at the end is missing.
pub proof fn law_request_may_be_a_list(object: JsonView, items: Seq<JsonView>)
    requires
        object is Object,
        items.len() <= 6,
        object.get("sessionId"@) == (if items.len() > 0 {
            Some(items[0])
        } else {
            None
        }),
        object.get("historyPolicy"@) == (if items.len() > 1 {
            Some(items[1])
        } else {
            None
        }),
        object.get("afterMessageId"@) == (if items.len() > 2 {
            Some(items[2])
        } else {
            None
        }),
        object.get("clientId"@) == (if items.len() > 3 {
            Some(items[3])
        } else {
            None
        }),
        object.get("clientInfo"@) == (if items.len() > 4 {
            Some(items[4])
        } else {
            None
        }),
        object.get("_meta"@) == (if items.len() > 5 {
            Some(items[5])
        } else {
            None
        }),
    ensures
        AttachParamsView::of(JsonView::Array(items)) == AttachParamsView::of(object),
{
}

/// A list of more than six items is none.
pub proof fn law_longer_list_is_no_request(items: Seq<JsonView>)
    requires
        items.len() > 6,
    ensures
        AttachParamsView::of_request(Some(JsonView::Array(items))) == AttachParamsView::of_request(
            None,
        ),
{
}

/// The message after which the history is to begin, and what the client says of
/// itself, are read as they are.
pub proof fn law_client_says_who_it_is(
    object: JsonView,
    message: Seq<char>,
    info: JsonView,
    name: Seq<char>,
    version: Option<Seq<char>>,
)
    requires
        object is Object,
        object.get("afterMessageId"@) == Some(JsonView::String(message)),
        object.get("clientInfo"@) == Some(info),
        object.get("sessionId"@) is None,
        object.get("historyPolicy"@) is None,
        object.get("clientId"@) is None,
        object.get("_meta"@) is None,
        info is Object,
        info.get("name"@) == Some(JsonView::String(name)),
        text_at(info, "version"@, version),
    ensures
        ({
            let asked = AttachParamsView::of_request(Some(object));
            &&& asked.after_message_id == Some(message)
            &&& asked.client_info matches Some(read) && read.name == name && read.version == version
        }),
{
}

} // verus!

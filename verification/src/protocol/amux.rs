//! The `amux/*` notifications: what the mux itself tells its subscribers of
//! peers, turns, queued prompts, replay and the agent's context.
//!
//! Each builder returns one whole JSON-RPC notification, without a line end.

use crate::json;
use crate::json::{Json, JsonView};
use crate::protocol::jsonrpc::VERSION;
use crate::text;
use vstd::prelude::*;

verus! {

pub const METHOD_PEER_JOINED: &'static str = "amux/peer_joined";
pub const METHOD_PEER_LEFT: &'static str = "amux/peer_left";
pub const METHOD_SESSION_CONTEXT: &'static str = "amux/session_context";
pub const METHOD_TURN_STARTED: &'static str = "amux/turn_started";
pub const METHOD_TURN_COMPLETE: &'static str = "amux/turn_complete";
pub const METHOD_SESSION_BUSY: &'static str = "amux/session_busy";
pub const METHOD_TURN_CANCELLED: &'static str = "amux/turn_cancelled";
pub const METHOD_QUEUE_ITEM_ADDED: &'static str = "amux/queue_item_added";
pub const METHOD_QUEUE_ITEM_SUBMITTED: &'static str = "amux/queue_item_submitted";
pub const METHOD_QUEUE_ITEM_COMPLETED: &'static str = "amux/queue_item_completed";
pub const METHOD_QUEUE_ITEM_REMOVED: &'static str = "amux/queue_item_removed";
pub const METHOD_QUEUE_ITEM_ORPHANED: &'static str = "amux/queue_item_orphaned";
pub const METHOD_REPLAY_STARTED: &'static str = "amux/replay_started";
pub const METHOD_REPLAY_COMPLETE: &'static str = "amux/replay_complete";
pub const METHOD_AGENT_REQUEST_OPENED: &'static str = "amux/agent_request_opened";
pub const METHOD_AGENT_REQUEST_RESOLVED: &'static str = "amux/agent_request_resolved";
pub const METHOD_SEGMENT_STARTED: &'static str = "amux/segment_started";
pub const METHOD_SEGMENT_ENDED: &'static str = "amux/segment_ended";
pub const METHOD_CONTROL_SUBMITTED: &'static str = "amux/control_submitted";
pub const METHOD_CONTEXT_COMPACTION_STARTED: &'static str = "amux/context_compaction_started";
pub const METHOD_CONTEXT_COMPACTION_DONE: &'static str = "amux/context_compaction_done";

/// Where a compaction signal came from: the stderr of a Hermes agent.
pub const COMPACTION_SOURCE_HERMES_STDERR: &'static str = "hermes_stderr";

/// Asks the mux to steer: the active turn is cancelled and replaced, or, where
/// none is active, the text is submitted as the next prompt.
pub const METHOD_STEER_ACTIVE_TURN: &'static str = "amux/steer_active_turn";

/// Asks the mux to keep a text for the next turn.
pub const METHOD_QUEUE_PROMPT: &'static str = "amux/queue_prompt";

/// Asks the mux to drop a queued prompt that was not submitted yet.
pub const METHOD_UNQUEUE_PROMPT: &'static str = "amux/unqueue_prompt";

/// Asks the mux to cancel the active turn, whoever drives it.
pub const METHOD_CANCEL_ACTIVE_TURN: &'static str = "amux/cancel_active_turn";

/// Who resolved a request that the agent itself took back.
pub const RESOLVED_BY_AGENT_CANCELLED: &'static str = "agent:cancelled";

/// A turn, counted from one within its session.
#[derive(Debug, Clone, Copy, PartialEq, Eq, Structural)]
pub struct AmuxTurnId(pub u64);

impl AmuxTurnId {
    /// The id as clients see it.
    pub open spec fn text(self) -> Seq<char> {
        "at-"@ + text::decimal_of(self.0 as nat)
    }

    /// The id as it stands in a frame.
    pub open spec fn json(self) -> JsonView {
        JsonView::String(self.text())
    }

    /// An optional id as it stands in a frame.
    pub open spec fn json_opt(id: Option<AmuxTurnId>) -> Option<JsonView> {
        match id {
            Some(id) => Some(id.json()),
            None => None,
        }
    }

    /// The id as clients see it.
    pub fn formatted(self) -> (text: String)
        ensures
            text@ == self.text(),
    {
        let mut text = "at-".to_owned();
        text.append(text::decimal(self.0).as_str());
        text
    }

    fn to_json(self) -> (json: Json)
        ensures
            json@ == self.json(),
    {
        Json::String(self.formatted())
    }

    fn to_json_opt(id: Option<AmuxTurnId>) -> (json: Option<Json>)
        ensures
            json.deep_view() == Self::json_opt(id),
    {
        match id {
            Some(id) => Some(id.to_json()),
            None => None,
        }
    }
}

/// A segment: the time in which one ACP session id is in force, counted within
/// its room.
#[derive(Debug, Clone, Copy, PartialEq, Eq, PartialOrd, Ord, Hash, Structural)]
pub struct SegmentId(pub u64);

impl SegmentId {
    /// The id as clients see it.
    pub open spec fn text(self) -> Seq<char> {
        "seg-"@ + text::decimal_of(self.0 as nat)
    }

    /// The id as it stands in a frame.
    pub open spec fn json(self) -> JsonView {
        JsonView::String(self.text())
    }

    /// An optional id as it stands in a frame.
    pub open spec fn json_opt(id: Option<SegmentId>) -> Option<JsonView> {
        match id {
            Some(id) => Some(id.json()),
            None => None,
        }
    }

    /// The id as clients see it.
    pub fn formatted(self) -> (text: String)
        ensures
            text@ == self.text(),
    {
        let mut text = "seg-".to_owned();
        text.append(text::decimal(self.0).as_str());
        text
    }

    /// The id as it stands in a frame.
    pub fn to_json(self) -> (json: Json)
        ensures
            json@ == self.json(),
    {
        Json::String(self.formatted())
    }

    /// An optional id as it stands in a frame.
    pub fn to_json_opt(id: Option<SegmentId>) -> (json: Option<Json>)
        ensures
            json.deep_view() == Self::json_opt(id),
    {
        match id {
            Some(id) => Some(id.to_json()),
            None => None,
        }
    }
}

/// Why a segment closed.
#[derive(Debug, Clone, Copy, PartialEq, Eq, Structural)]
pub enum EndReason {
    /// A client loaded another session.
    SessionLoad,
    /// The agent reported that compaction split its session.
    HermesCompression,
    /// A frame of the agent carried another ACP session id.
    AcpSessionIdChanged,
}

impl EndReason {
    /// The reason as clients see it.
    pub open spec fn text(self) -> Seq<char> {
        match self {
            EndReason::SessionLoad => "session_load"@,
            EndReason::HermesCompression => "hermes_compression"@,
            EndReason::AcpSessionIdChanged => "acp_session_id_changed"@,
        }
    }

    /// The reason as it stands in a frame.
    pub open spec fn json(self) -> JsonView {
        JsonView::String(self.text())
    }

    /// The reason as clients see it.
    pub fn as_str(self) -> (text: &'static str)
        ensures
            text@ == self.text(),
    {
        match self {
            EndReason::SessionLoad => "session_load",
            EndReason::HermesCompression => "hermes_compression",
            EndReason::AcpSessionIdChanged => "acp_session_id_changed",
        }
    }

    fn to_json(self) -> (json: Json)
        ensures
            json@ == self.json(),
    {
        Json::string(self.as_str())
    }
}

/// Where the agent says a session came from. Each part is there only where the
/// agent reported it.
#[derive(Debug, PartialEq, Eq)]
pub struct HermesProvenance {
    pub acp_session_id: Option<String>,
    pub hermes_session_id: Option<String>,
    pub parent_hermes_session_id: Option<String>,
    pub root_hermes_session_id: Option<String>,
    pub session_kind: Option<String>,
    pub creator_kind: Option<String>,
    pub edge_kind: Option<String>,
    pub compression_depth: Option<u32>,
    pub lineage_hermes_session_ids: Option<Vec<String>>,
    pub last_mode: Option<String>,
    pub last_reason: Option<String>,
}

/// The model of [`HermesProvenance`].
#[verifier::ext_equal]
pub struct HermesProvenanceView {
    pub acp_session_id: Option<Seq<char>>,
    pub hermes_session_id: Option<Seq<char>>,
    pub parent_hermes_session_id: Option<Seq<char>>,
    pub root_hermes_session_id: Option<Seq<char>>,
    pub session_kind: Option<Seq<char>>,
    pub creator_kind: Option<Seq<char>>,
    pub edge_kind: Option<Seq<char>>,
    pub compression_depth: Option<u32>,
    pub lineage_hermes_session_ids: Option<Seq<Seq<char>>>,
    pub last_mode: Option<Seq<char>>,
    pub last_reason: Option<Seq<char>>,
}

impl View for HermesProvenance {
    type V = HermesProvenanceView;

    open spec fn view(&self) -> HermesProvenanceView {
        HermesProvenanceView {
            acp_session_id: self.acp_session_id.deep_view(),
            hermes_session_id: self.hermes_session_id.deep_view(),
            parent_hermes_session_id: self.parent_hermes_session_id.deep_view(),
            root_hermes_session_id: self.root_hermes_session_id.deep_view(),
            session_kind: self.session_kind.deep_view(),
            creator_kind: self.creator_kind.deep_view(),
            edge_kind: self.edge_kind.deep_view(),
            compression_depth: self.compression_depth,
            lineage_hermes_session_ids: self.lineage_hermes_session_ids.deep_view(),
            last_mode: self.last_mode.deep_view(),
            last_reason: self.last_reason.deep_view(),
        }
    }
}

impl Default for HermesProvenance {
    fn default() -> (provenance: Self)
        ensures
            provenance@.is_empty(),
    {
        HermesProvenance {
            acp_session_id: None,
            hermes_session_id: None,
            parent_hermes_session_id: None,
            root_hermes_session_id: None,
            session_kind: None,
            creator_kind: None,
            edge_kind: None,
            compression_depth: None,
            lineage_hermes_session_ids: None,
            last_mode: None,
            last_reason: None,
        }
    }
}

impl Clone for HermesProvenance {
    fn clone(&self) -> (copy: Self)
        ensures
            copy@ == self@,
    {
        let lineage = match &self.lineage_hermes_session_ids {
            Some(ids) => Some(copy_texts(ids)),
            None => None,
        };
        HermesProvenance {
            acp_session_id: self.acp_session_id.clone(),
            hermes_session_id: self.hermes_session_id.clone(),
            parent_hermes_session_id: self.parent_hermes_session_id.clone(),
            root_hermes_session_id: self.root_hermes_session_id.clone(),
            session_kind: self.session_kind.clone(),
            creator_kind: self.creator_kind.clone(),
            edge_kind: self.edge_kind.clone(),
            compression_depth: self.compression_depth,
            lineage_hermes_session_ids: lineage,
            last_mode: self.last_mode.clone(),
            last_reason: self.last_reason.clone(),
        }
    }
}

fn copy_texts(texts: &Vec<String>) -> (copies: Vec<String>)
    ensures
        copies.deep_view() == texts.deep_view(),
{
    let mut copies: Vec<String> = Vec::new();
    let mut at: usize = 0;
    while at < texts.len()
        invariant
            at <= texts@.len(),
            copies@.len() == at,
            forall|i: int| 0 <= i < at ==> (#[trigger] copies@[i])@ == texts@[i]@,
        decreases texts@.len() - at,
    {
        copies.push(texts[at].clone());
        at += 1;
    }
    assert(copies.deep_view() =~= texts.deep_view());
    copies
}

impl HermesProvenanceView {
    /// Whether nothing was reported.
    pub open spec fn is_empty(self) -> bool {
        &&& self.acp_session_id is None
        &&& self.hermes_session_id is None
        &&& self.parent_hermes_session_id is None
        &&& self.root_hermes_session_id is None
        &&& self.session_kind is None
        &&& self.creator_kind is None
        &&& self.edge_kind is None
        &&& self.compression_depth is None
        &&& self.lineage_hermes_session_ids is None
        &&& self.last_mode is None
        &&& self.last_reason is None
    }

    /// The parts that were reported.
    pub open spec fn json(self) -> JsonView {
        JsonView::object()
            .field_opt("acpSessionId"@, json::text_opt(self.acp_session_id))
            .field_opt("hermesSessionId"@, json::text_opt(self.hermes_session_id))
            .field_opt("parentHermesSessionId"@, json::text_opt(self.parent_hermes_session_id))
            .field_opt("rootHermesSessionId"@, json::text_opt(self.root_hermes_session_id))
            .field_opt("sessionKind"@, json::text_opt(self.session_kind))
            .field_opt("creatorKind"@, json::text_opt(self.creator_kind))
            .field_opt("edgeKind"@, json::text_opt(self.edge_kind))
            .field_opt("compressionDepth"@, match self.compression_depth {
                Some(depth) => Some(JsonView::Int(depth as int)),
                None => None,
            })
            .field_opt("lineageHermesSessionIds"@, match self.lineage_hermes_session_ids {
                Some(ids) => Some(JsonView::Array(ids.map_values(|id: Seq<char>| JsonView::String(id)))),
                None => None,
            })
            .field_opt("lastMode"@, json::text_opt(self.last_mode))
            .field_opt("lastReason"@, json::text_opt(self.last_reason))
    }

    /// The parts that were reported, where there are any.
    pub open spec fn json_opt(self) -> Option<JsonView> {
        if self.is_empty() {
            None
        } else {
            Some(self.json())
        }
    }
}

impl HermesProvenance {
    /// Whether nothing was reported.
    pub fn is_empty(&self) -> (empty: bool)
        ensures
            empty == self@.is_empty(),
    {
        self.acp_session_id.is_none()
            && self.hermes_session_id.is_none()
            && self.parent_hermes_session_id.is_none()
            && self.root_hermes_session_id.is_none()
            && self.session_kind.is_none()
            && self.creator_kind.is_none()
            && self.edge_kind.is_none()
            && self.compression_depth.is_none()
            && self.lineage_hermes_session_ids.is_none()
            && self.last_mode.is_none()
            && self.last_reason.is_none()
    }

    /// The parts that were reported, as a document.
    pub fn to_json(&self) -> (json: Json)
        ensures
            json@ == self@.json(),
    {
        let depth = match self.compression_depth {
            Some(depth) => Some(Json::Unsigned(depth as u64)),
            None => None,
        };
        let lineage = match &self.lineage_hermes_session_ids {
            Some(ids) => Some(string_array(ids)),
            None => None,
        };
        Json::object()
            .field_opt("acpSessionId", owned_text(&self.acp_session_id))
            .field_opt("hermesSessionId", owned_text(&self.hermes_session_id))
            .field_opt("parentHermesSessionId", owned_text(&self.parent_hermes_session_id))
            .field_opt("rootHermesSessionId", owned_text(&self.root_hermes_session_id))
            .field_opt("sessionKind", owned_text(&self.session_kind))
            .field_opt("creatorKind", owned_text(&self.creator_kind))
            .field_opt("edgeKind", owned_text(&self.edge_kind))
            .field_opt("compressionDepth", depth)
            .field_opt("lineageHermesSessionIds", lineage)
            .field_opt("lastMode", owned_text(&self.last_mode))
            .field_opt("lastReason", owned_text(&self.last_reason))
    }

    /// The parts that were reported, where there are any.
    pub fn to_json_opt(&self) -> (json: Option<Json>)
        ensures
            json.deep_view() == self@.json_opt(),
    {
        if self.is_empty() {
            None
        } else {
            Some(self.to_json())
        }
    }
}

/// The notification `method` with `params`.
pub open spec fn frame(method: Seq<char>, params: JsonView) -> JsonView {
    JsonView::object()
        .field("jsonrpc"@, JsonView::String(VERSION@))
        .field("method"@, JsonView::String(method))
        .field("params"@, params)
}

fn encode(method: &str, params: Json) -> (bytes: Vec<u8>)
    ensures
        bytes@ == json::json_text(frame(method@, params@)),
        !bytes@.contains(10u8),
{
    Json::object()
        .field("jsonrpc", Json::string(VERSION))
        .field("method", Json::string(method))
        .field("params", params)
        .to_vec()
}

fn copied(json: Option<&Json>) -> (copy: Option<Json>)
    ensures
        copy.deep_view() == json.deep_view(),
{
    match json {
        Some(json) => Some(json.clone()),
        None => None,
    }
}

fn owned_text(text: &Option<String>) -> (json: Option<Json>)
    ensures
        json.deep_view() == json::text_opt(text.deep_view()),
{
    match text {
        Some(text) => Some(Json::String(text.clone())),
        None => None,
    }
}

/// The array of the given texts.
pub fn string_array(texts: &Vec<String>) -> (json: Json)
    ensures
        json@ == JsonView::Array(
            texts.deep_view().map_values(|text: Seq<char>| JsonView::String(text)),
        ),
{
    let mut items: Vec<Json> = Vec::new();
    let mut at: usize = 0;
    while at < texts.len()
        invariant
            at <= texts@.len(),
            items@.len() == at,
            forall|i: int| 0 <= i < at ==> (#[trigger] items@[i])@ == JsonView::String(texts@[i]@),
        decreases texts@.len() - at,
    {
        items.push(Json::String(texts[at].clone()));
        at += 1;
    }
    assert(items.deep_view() =~= texts.deep_view().map_values(
        |text: Seq<char>| JsonView::String(text),
    ));
    Json::array(items)
}

/// A peer attached.
pub open spec fn peer_joined_frame(
    room_id: Seq<char>,
    peer_id: Seq<char>,
    peer_name: Option<Seq<char>>,
    role: Option<Seq<char>>,
) -> JsonView {
    frame(
        METHOD_PEER_JOINED@,
        JsonView::object()
            .field("roomId"@, JsonView::String(room_id))
            .field("peerId"@, JsonView::String(peer_id))
            .field_opt("peerName"@, json::text_opt(peer_name))
            .field_opt("role"@, json::text_opt(role)),
    )
}

/// A peer attached.
pub fn peer_joined(
    room_id: &str,
    peer_id: &str,
    peer_name: Option<&str>,
    role: Option<&str>,
) -> (bytes: Vec<u8>)
    ensures
        bytes@ == json::json_text(peer_joined_frame(room_id@, peer_id@, peer_name.deep_view(), role.deep_view())),
        !bytes@.contains(10u8),
{
    encode(
        METHOD_PEER_JOINED,
        Json::object()
            .field("roomId", Json::string(room_id))
            .field("peerId", Json::string(peer_id))
            .field_opt("peerName", Json::string_opt(peer_name))
            .field_opt("role", Json::string_opt(role)),
    )
}

/// A peer detached.
pub open spec fn peer_left_frame(
    room_id: Seq<char>,
    peer_id: Seq<char>,
) -> JsonView {
    frame(
        METHOD_PEER_LEFT@,
        JsonView::object()
            .field("roomId"@, JsonView::String(room_id))
            .field("peerId"@, JsonView::String(peer_id)),
    )
}

/// A peer detached.
pub fn peer_left(
    room_id: &str,
    peer_id: &str,
) -> (bytes: Vec<u8>)
    ensures
        bytes@ == json::json_text(peer_left_frame(room_id@, peer_id@)),
        !bytes@.contains(10u8),
{
    encode(
        METHOD_PEER_LEFT,
        Json::object()
            .field("roomId", Json::string(room_id))
            .field("peerId", Json::string(peer_id)),
    )
}

/// Where the agent of the session runs.
pub open spec fn session_context_frame(
    room_id: Seq<char>,
    cwd: Seq<char>,
) -> JsonView {
    frame(
        METHOD_SESSION_CONTEXT@,
        JsonView::object()
            .field("roomId"@, JsonView::String(room_id))
            .field("cwd"@, JsonView::String(cwd)),
    )
}

/// Where the agent of the session runs.
pub fn session_context(
    room_id: &str,
    cwd: &str,
) -> (bytes: Vec<u8>)
    ensures
        bytes@ == json::json_text(session_context_frame(room_id@, cwd@)),
        !bytes@.contains(10u8),
{
    encode(
        METHOD_SESSION_CONTEXT,
        Json::object()
            .field("roomId", Json::string(room_id))
            .field("cwd", Json::string(cwd)),
    )
}

/// A prompt became the active turn.
pub open spec fn turn_started_frame(
    room_id: Seq<char>,
    amux_turn_id: AmuxTurnId,
    peer_id: Seq<char>,
    peer_name: Option<Seq<char>>,
    role: Option<Seq<char>>,
    content: JsonView,
    supersedes_turn_id: Option<AmuxTurnId>,
) -> JsonView {
    frame(
        METHOD_TURN_STARTED@,
        JsonView::object()
            .field("roomId"@, JsonView::String(room_id))
            .field("amuxTurnId"@, amux_turn_id.json())
            .field("peerId"@, JsonView::String(peer_id))
            .field_opt("peerName"@, json::text_opt(peer_name))
            .field_opt("role"@, json::text_opt(role))
            .field("content"@, content)
            .field_opt("supersedesTurnId"@, AmuxTurnId::json_opt(supersedes_turn_id)),
    )
}

/// A prompt became the active turn.
pub fn turn_started(
    room_id: &str,
    amux_turn_id: AmuxTurnId,
    peer_id: &str,
    peer_name: Option<&str>,
    role: Option<&str>,
    content: &Json,
    supersedes_turn_id: Option<AmuxTurnId>,
) -> (bytes: Vec<u8>)
    ensures
        bytes@ == json::json_text(turn_started_frame(room_id@, amux_turn_id, peer_id@, peer_name.deep_view(), role.deep_view(), content@, supersedes_turn_id)),
        !bytes@.contains(10u8),
{
    encode(
        METHOD_TURN_STARTED,
        Json::object()
            .field("roomId", Json::string(room_id))
            .field("amuxTurnId", amux_turn_id.to_json())
            .field("peerId", Json::string(peer_id))
            .field_opt("peerName", Json::string_opt(peer_name))
            .field_opt("role", Json::string_opt(role))
            .field("content", content.clone())
            .field_opt("supersedesTurnId", AmuxTurnId::to_json_opt(supersedes_turn_id)),
    )
}

/// The active turn ended.
pub open spec fn turn_complete_frame(
    room_id: Seq<char>,
    amux_turn_id: AmuxTurnId,
    stop_reason: JsonView,
) -> JsonView {
    frame(
        METHOD_TURN_COMPLETE@,
        JsonView::object()
            .field("roomId"@, JsonView::String(room_id))
            .field("amuxTurnId"@, amux_turn_id.json())
            .field("stopReason"@, stop_reason),
    )
}

/// The active turn ended.
pub fn turn_complete(
    room_id: &str,
    amux_turn_id: AmuxTurnId,
    stop_reason: &Json,
) -> (bytes: Vec<u8>)
    ensures
        bytes@ == json::json_text(turn_complete_frame(room_id@, amux_turn_id, stop_reason@)),
        !bytes@.contains(10u8),
{
    encode(
        METHOD_TURN_COMPLETE,
        Json::object()
            .field("roomId", Json::string(room_id))
            .field("amuxTurnId", amux_turn_id.to_json())
            .field("stopReason", stop_reason.clone()),
    )
}

/// Whether a turn is held, and by whom.
pub open spec fn session_busy_frame(
    room_id: Seq<char>,
    busy: bool,
    held_by: Option<Seq<char>>,
) -> JsonView {
    frame(
        METHOD_SESSION_BUSY@,
        JsonView::object()
            .field("roomId"@, JsonView::String(room_id))
            .field("busy"@, JsonView::Bool(busy))
            .field_opt("heldBy"@, json::text_opt(held_by)),
    )
}

/// Whether a turn is held, and by whom.
pub fn session_busy(
    room_id: &str,
    busy: bool,
    held_by: Option<&str>,
) -> (bytes: Vec<u8>)
    ensures
        bytes@ == json::json_text(session_busy_frame(room_id@, busy, held_by.deep_view())),
        !bytes@.contains(10u8),
{
    encode(
        METHOD_SESSION_BUSY,
        Json::object()
            .field("roomId", Json::string(room_id))
            .field("busy", Json::Bool(busy))
            .field_opt("heldBy", Json::string_opt(held_by)),
    )
}

/// A peer asked for the active turn to stop. The turn itself ends later, when
/// the agent answers; `cancelledBy` and `originalDriver` keep who asked and whose
/// turn it was.
pub open spec fn turn_cancelled_frame(
    room_id: Seq<char>,
    amux_turn_id: AmuxTurnId,
    cancelled_by: Seq<char>,
    original_driver: Seq<char>,
    reason: Option<Seq<char>>,
) -> JsonView {
    frame(
        METHOD_TURN_CANCELLED@,
        JsonView::object()
            .field("roomId"@, JsonView::String(room_id))
            .field("amuxTurnId"@, amux_turn_id.json())
            .field("cancelledBy"@, JsonView::String(cancelled_by))
            .field("originalDriver"@, JsonView::String(original_driver))
            .field_opt("reason"@, json::text_opt(reason)),
    )
}

/// A peer asked for the active turn to stop. The turn itself ends later, when
/// the agent answers; `cancelledBy` and `originalDriver` keep who asked and whose
/// turn it was.
pub fn turn_cancelled(
    room_id: &str,
    amux_turn_id: AmuxTurnId,
    cancelled_by: &str,
    original_driver: &str,
    reason: Option<&str>,
) -> (bytes: Vec<u8>)
    ensures
        bytes@ == json::json_text(turn_cancelled_frame(room_id@, amux_turn_id, cancelled_by@, original_driver@, reason.deep_view())),
        !bytes@.contains(10u8),
{
    encode(
        METHOD_TURN_CANCELLED,
        Json::object()
            .field("roomId", Json::string(room_id))
            .field("amuxTurnId", amux_turn_id.to_json())
            .field("cancelledBy", Json::string(cancelled_by))
            .field("originalDriver", Json::string(original_driver))
            .field_opt("reason", Json::string_opt(reason)),
    )
}

/// A prompt was put into the queue.
pub open spec fn queue_item_added_frame(
    room_id: Seq<char>,
    queue_item_id: Seq<char>,
    peer_id: Seq<char>,
    peer_name: Option<Seq<char>>,
    role: Option<Seq<char>>,
    text: Seq<char>,
) -> JsonView {
    frame(
        METHOD_QUEUE_ITEM_ADDED@,
        JsonView::object()
            .field("roomId"@, JsonView::String(room_id))
            .field("queueItemId"@, JsonView::String(queue_item_id))
            .field("peerId"@, JsonView::String(peer_id))
            .field_opt("peerName"@, json::text_opt(peer_name))
            .field_opt("role"@, json::text_opt(role))
            .field("text"@, JsonView::String(text))
            .field("status"@, JsonView::String("queued"@)),
    )
}

/// A prompt was put into the queue.
pub fn queue_item_added(
    room_id: &str,
    queue_item_id: &str,
    peer_id: &str,
    peer_name: Option<&str>,
    role: Option<&str>,
    text: &str,
) -> (bytes: Vec<u8>)
    ensures
        bytes@ == json::json_text(queue_item_added_frame(room_id@, queue_item_id@, peer_id@, peer_name.deep_view(), role.deep_view(), text@)),
        !bytes@.contains(10u8),
{
    encode(
        METHOD_QUEUE_ITEM_ADDED,
        Json::object()
            .field("roomId", Json::string(room_id))
            .field("queueItemId", Json::string(queue_item_id))
            .field("peerId", Json::string(peer_id))
            .field_opt("peerName", Json::string_opt(peer_name))
            .field_opt("role", Json::string_opt(role))
            .field("text", Json::string(text))
            .field("status", Json::string("queued")),
    )
}

/// A queued prompt became the active turn.
pub open spec fn queue_item_submitted_frame(
    room_id: Seq<char>,
    queue_item_id: Seq<char>,
    amux_turn_id: AmuxTurnId,
) -> JsonView {
    frame(
        METHOD_QUEUE_ITEM_SUBMITTED@,
        JsonView::object()
            .field("roomId"@, JsonView::String(room_id))
            .field("queueItemId"@, JsonView::String(queue_item_id))
            .field("amuxTurnId"@, amux_turn_id.json()),
    )
}

/// A queued prompt became the active turn.
pub fn queue_item_submitted(
    room_id: &str,
    queue_item_id: &str,
    amux_turn_id: AmuxTurnId,
) -> (bytes: Vec<u8>)
    ensures
        bytes@ == json::json_text(queue_item_submitted_frame(room_id@, queue_item_id@, amux_turn_id)),
        !bytes@.contains(10u8),
{
    encode(
        METHOD_QUEUE_ITEM_SUBMITTED,
        Json::object()
            .field("roomId", Json::string(room_id))
            .field("queueItemId", Json::string(queue_item_id))
            .field("amuxTurnId", amux_turn_id.to_json()),
    )
}

/// The turn of a queued prompt ended.
pub open spec fn queue_item_completed_frame(
    room_id: Seq<char>,
    queue_item_id: Seq<char>,
    amux_turn_id: AmuxTurnId,
    stop_reason: JsonView,
) -> JsonView {
    frame(
        METHOD_QUEUE_ITEM_COMPLETED@,
        JsonView::object()
            .field("roomId"@, JsonView::String(room_id))
            .field("queueItemId"@, JsonView::String(queue_item_id))
            .field("amuxTurnId"@, amux_turn_id.json())
            .field("stopReason"@, stop_reason),
    )
}

/// The turn of a queued prompt ended.
pub fn queue_item_completed(
    room_id: &str,
    queue_item_id: &str,
    amux_turn_id: AmuxTurnId,
    stop_reason: &Json,
) -> (bytes: Vec<u8>)
    ensures
        bytes@ == json::json_text(queue_item_completed_frame(room_id@, queue_item_id@, amux_turn_id, stop_reason@)),
        !bytes@.contains(10u8),
{
    encode(
        METHOD_QUEUE_ITEM_COMPLETED,
        Json::object()
            .field("roomId", Json::string(room_id))
            .field("queueItemId", Json::string(queue_item_id))
            .field("amuxTurnId", amux_turn_id.to_json())
            .field("stopReason", stop_reason.clone()),
    )
}

/// A queued prompt was taken out before it was submitted.
pub open spec fn queue_item_removed_frame(
    room_id: Seq<char>,
    queue_item_id: Seq<char>,
    removed_by: Seq<char>,
) -> JsonView {
    frame(
        METHOD_QUEUE_ITEM_REMOVED@,
        JsonView::object()
            .field("roomId"@, JsonView::String(room_id))
            .field("queueItemId"@, JsonView::String(queue_item_id))
            .field("removedBy"@, JsonView::String(removed_by))
            .field("reason"@, JsonView::String("unqueued"@)),
    )
}

/// A queued prompt was taken out before it was submitted.
pub fn queue_item_removed(
    room_id: &str,
    queue_item_id: &str,
    removed_by: &str,
) -> (bytes: Vec<u8>)
    ensures
        bytes@ == json::json_text(queue_item_removed_frame(room_id@, queue_item_id@, removed_by@)),
        !bytes@.contains(10u8),
{
    encode(
        METHOD_QUEUE_ITEM_REMOVED,
        Json::object()
            .field("roomId", Json::string(room_id))
            .field("queueItemId", Json::string(queue_item_id))
            .field("removedBy", Json::string(removed_by))
            .field("reason", Json::string("unqueued")),
    )
}

/// The owner of a queued prompt detached; the prompt stays queued.
pub open spec fn queue_item_orphaned_frame(
    room_id: Seq<char>,
    queue_item_id: Seq<char>,
    peer_id: Seq<char>,
) -> JsonView {
    frame(
        METHOD_QUEUE_ITEM_ORPHANED@,
        JsonView::object()
            .field("roomId"@, JsonView::String(room_id))
            .field("queueItemId"@, JsonView::String(queue_item_id))
            .field("peerId"@, JsonView::String(peer_id)),
    )
}

/// The owner of a queued prompt detached; the prompt stays queued.
pub fn queue_item_orphaned(
    room_id: &str,
    queue_item_id: &str,
    peer_id: &str,
) -> (bytes: Vec<u8>)
    ensures
        bytes@ == json::json_text(queue_item_orphaned_frame(room_id@, queue_item_id@, peer_id@)),
        !bytes@.contains(10u8),
{
    encode(
        METHOD_QUEUE_ITEM_ORPHANED,
        Json::object()
            .field("roomId", Json::string(room_id))
            .field("queueItemId", Json::string(queue_item_id))
            .field("peerId", Json::string(peer_id)),
    )
}

/// A page of replayed frames begins.
pub open spec fn replay_started_frame(
    room_id: Seq<char>,
    phase: Seq<char>,
    replay_order: Seq<char>,
    generation: u64,
    replay_boundary_seq: u64,
    frame_count: usize,
) -> JsonView {
    frame(
        METHOD_REPLAY_STARTED@,
        JsonView::object()
            .field("roomId"@, JsonView::String(room_id))
            .field("phase"@, JsonView::String(phase))
            .field("replayOrder"@, JsonView::String(replay_order))
            .field("generation"@, JsonView::Int(generation as int))
            .field("replayBoundarySeq"@, JsonView::Int(replay_boundary_seq as int))
            .field("frameCount"@, JsonView::Int(frame_count as int)),
    )
}

/// A page of replayed frames begins.
pub fn replay_started(
    room_id: &str,
    phase: &str,
    replay_order: &str,
    generation: u64,
    replay_boundary_seq: u64,
    frame_count: usize,
) -> (bytes: Vec<u8>)
    ensures
        bytes@ == json::json_text(replay_started_frame(room_id@, phase@, replay_order@, generation, replay_boundary_seq, frame_count)),
        !bytes@.contains(10u8),
{
    encode(
        METHOD_REPLAY_STARTED,
        Json::object()
            .field("roomId", Json::string(room_id))
            .field("phase", Json::string(phase))
            .field("replayOrder", Json::string(replay_order))
            .field("generation", Json::Unsigned(generation))
            .field("replayBoundarySeq", Json::Unsigned(replay_boundary_seq))
            .field("frameCount", Json::Unsigned(frame_count as u64)),
    )
}

/// A page of replayed frames ended.
pub open spec fn replay_complete_frame(
    room_id: Seq<char>,
    phase: Seq<char>,
    replay_order: Seq<char>,
    generation: u64,
    replay_boundary_seq: u64,
    frame_count: usize,
) -> JsonView {
    frame(
        METHOD_REPLAY_COMPLETE@,
        JsonView::object()
            .field("roomId"@, JsonView::String(room_id))
            .field("phase"@, JsonView::String(phase))
            .field("replayOrder"@, JsonView::String(replay_order))
            .field("generation"@, JsonView::Int(generation as int))
            .field("replayBoundarySeq"@, JsonView::Int(replay_boundary_seq as int))
            .field("frameCount"@, JsonView::Int(frame_count as int)),
    )
}

/// A page of replayed frames ended.
pub fn replay_complete(
    room_id: &str,
    phase: &str,
    replay_order: &str,
    generation: u64,
    replay_boundary_seq: u64,
    frame_count: usize,
) -> (bytes: Vec<u8>)
    ensures
        bytes@ == json::json_text(replay_complete_frame(room_id@, phase@, replay_order@, generation, replay_boundary_seq, frame_count)),
        !bytes@.contains(10u8),
{
    encode(
        METHOD_REPLAY_COMPLETE,
        Json::object()
            .field("roomId", Json::string(room_id))
            .field("phase", Json::string(phase))
            .field("replayOrder", Json::string(replay_order))
            .field("generation", Json::Unsigned(generation))
            .field("replayBoundarySeq", Json::Unsigned(replay_boundary_seq))
            .field("frameCount", Json::Unsigned(frame_count as u64)),
    )
}

/// The agent asked the subscribers something. The request itself goes to those
/// who are attached; this notification is what the replay log keeps of it.
pub open spec fn agent_request_opened_frame(
    room_id: Seq<char>,
    request_id: JsonView,
    request_method: Seq<char>,
    request_params: Option<JsonView>,
    amux_turn_id: Option<AmuxTurnId>,
) -> JsonView {
    frame(
        METHOD_AGENT_REQUEST_OPENED@,
        JsonView::object()
            .field("roomId"@, JsonView::String(room_id))
            .field("requestId"@, request_id)
            .field("requestMethod"@, JsonView::String(request_method))
            .field_opt("requestParams"@, request_params)
            .field_opt("amuxTurnId"@, AmuxTurnId::json_opt(amux_turn_id)),
    )
}

/// The agent asked the subscribers something. The request itself goes to those
/// who are attached; this notification is what the replay log keeps of it.
pub fn agent_request_opened(
    room_id: &str,
    request_id: &Json,
    request_method: &str,
    request_params: Option<&Json>,
    amux_turn_id: Option<AmuxTurnId>,
) -> (bytes: Vec<u8>)
    ensures
        bytes@ == json::json_text(agent_request_opened_frame(room_id@, request_id@, request_method@, request_params.deep_view(), amux_turn_id)),
        !bytes@.contains(10u8),
{
    encode(
        METHOD_AGENT_REQUEST_OPENED,
        Json::object()
            .field("roomId", Json::string(room_id))
            .field("requestId", request_id.clone())
            .field("requestMethod", Json::string(request_method))
            .field_opt("requestParams", copied(request_params))
            .field_opt("amuxTurnId", AmuxTurnId::to_json_opt(amux_turn_id)),
    )
}

/// What the agent asked is settled: `result` or `error` is the reply that won,
/// and neither is there where nobody replied.
pub open spec fn agent_request_resolved_frame(
    room_id: Seq<char>,
    request_id: JsonView,
    resolved_by: Seq<char>,
    result: Option<JsonView>,
    error: Option<JsonView>,
) -> JsonView {
    frame(
        METHOD_AGENT_REQUEST_RESOLVED@,
        JsonView::object()
            .field("roomId"@, JsonView::String(room_id))
            .field("requestId"@, request_id)
            .field("resolvedBy"@, JsonView::String(resolved_by))
            .field_opt("result"@, result)
            .field_opt("error"@, error),
    )
}

/// What the agent asked is settled: `result` or `error` is the reply that won,
/// and neither is there where nobody replied.
pub fn agent_request_resolved(
    room_id: &str,
    request_id: &Json,
    resolved_by: &str,
    result: Option<&Json>,
    error: Option<&Json>,
) -> (bytes: Vec<u8>)
    ensures
        bytes@ == json::json_text(agent_request_resolved_frame(room_id@, request_id@, resolved_by@, result.deep_view(), error.deep_view())),
        !bytes@.contains(10u8),
{
    encode(
        METHOD_AGENT_REQUEST_RESOLVED,
        Json::object()
            .field("roomId", Json::string(room_id))
            .field("requestId", request_id.clone())
            .field("resolvedBy", Json::string(resolved_by))
            .field_opt("result", copied(result))
            .field_opt("error", copied(error)),
    )
}

/// A segment opened.
pub open spec fn segment_started_frame(
    room_id: Seq<char>,
    segment_id: SegmentId,
    acp_session_id: Option<Seq<char>>,
    opened_at: Seq<char>,
    provenance: HermesProvenanceView,
) -> JsonView {
    frame(
        METHOD_SEGMENT_STARTED@,
        JsonView::object()
            .field("roomId"@, JsonView::String(room_id))
            .field("segmentId"@, segment_id.json())
            .field_opt("acpSessionId"@, json::text_opt(acp_session_id))
            .field("openedAt"@, JsonView::String(opened_at))
            .field_opt("provenance"@, provenance.json_opt()),
    )
}

/// A segment opened.
pub fn segment_started(
    room_id: &str,
    segment_id: SegmentId,
    acp_session_id: Option<&str>,
    opened_at: &str,
    provenance: &HermesProvenance,
) -> (bytes: Vec<u8>)
    ensures
        bytes@ == json::json_text(segment_started_frame(room_id@, segment_id, acp_session_id.deep_view(), opened_at@, provenance@)),
        !bytes@.contains(10u8),
{
    encode(
        METHOD_SEGMENT_STARTED,
        Json::object()
            .field("roomId", Json::string(room_id))
            .field("segmentId", segment_id.to_json())
            .field_opt("acpSessionId", Json::string_opt(acp_session_id))
            .field("openedAt", Json::string(opened_at))
            .field_opt("provenance", provenance.to_json_opt()),
    )
}

/// A segment closed.
pub open spec fn segment_ended_frame(
    room_id: Seq<char>,
    segment_id: SegmentId,
    closed_at: Seq<char>,
    end_reason: EndReason,
    successor_segment_id: Option<SegmentId>,
) -> JsonView {
    frame(
        METHOD_SEGMENT_ENDED@,
        JsonView::object()
            .field("roomId"@, JsonView::String(room_id))
            .field("segmentId"@, segment_id.json())
            .field("closedAt"@, JsonView::String(closed_at))
            .field("endReason"@, end_reason.json())
            .field_opt("successorSegmentId"@, SegmentId::json_opt(successor_segment_id)),
    )
}

/// A segment closed.
pub fn segment_ended(
    room_id: &str,
    segment_id: SegmentId,
    closed_at: &str,
    end_reason: EndReason,
    successor_segment_id: Option<SegmentId>,
) -> (bytes: Vec<u8>)
    ensures
        bytes@ == json::json_text(segment_ended_frame(room_id@, segment_id, closed_at@, end_reason, successor_segment_id)),
        !bytes@.contains(10u8),
{
    encode(
        METHOD_SEGMENT_ENDED,
        Json::object()
            .field("roomId", Json::string(room_id))
            .field("segmentId", segment_id.to_json())
            .field("closedAt", Json::string(closed_at))
            .field("endReason", end_reason.to_json())
            .field_opt("successorSegmentId", SegmentId::to_json_opt(successor_segment_id)),
    )
}

/// A peer steered or queued.
pub struct ControlSubmitted<'a> {
    pub room_id: &'a str,
    pub kind: &'a str,
    pub mode: &'a str,
    pub peer_id: &'a str,
    pub peer_name: Option<&'a str>,
    pub role: Option<&'a str>,
    pub amux_turn_id: Option<AmuxTurnId>,
    pub text: &'a str,
}

impl<'a> ControlSubmitted<'a> {
    /// The frame of the event.
    pub open spec fn frame(self) -> JsonView {
        frame(
            METHOD_CONTROL_SUBMITTED@,
            JsonView::object()
                .field("roomId"@, JsonView::String(self.room_id@))
                .field("kind"@, JsonView::String(self.kind@))
                .field("mode"@, JsonView::String(self.mode@))
                .field("peerId"@, JsonView::String(self.peer_id@))
                .field_opt("peerName"@, json::text_opt(self.peer_name.deep_view()))
                .field_opt("role"@, json::text_opt(self.role.deep_view()))
                .field_opt("amuxTurnId"@, AmuxTurnId::json_opt(self.amux_turn_id))
                .field("text"@, JsonView::String(self.text@)),
        )
    }
}

/// A peer steered or queued.
pub fn control_submitted(event: ControlSubmitted<'_>) -> (bytes: Vec<u8>)
    ensures
        bytes@ == json::json_text(event.frame()),
        !bytes@.contains(10u8),
{
    encode(
        METHOD_CONTROL_SUBMITTED,
        Json::object()
            .field("roomId", Json::string(event.room_id))
            .field("kind", Json::string(event.kind))
            .field("mode", Json::string(event.mode))
            .field("peerId", Json::string(event.peer_id))
            .field_opt("peerName", Json::string_opt(event.peer_name))
            .field_opt("role", Json::string_opt(event.role))
            .field_opt("amuxTurnId", AmuxTurnId::to_json_opt(event.amux_turn_id))
            .field("text", Json::string(event.text)),
    )
}

/// The agent began to compact its context.
pub struct ContextCompactionStarted<'a> {
    pub room_id: &'a str,
    pub source: &'a str,
    pub hermes_session_id: Option<&'a str>,
    pub messages_before: Option<u64>,
    pub tokens_approx_before: Option<u64>,
    pub model: Option<&'a str>,
    pub focus: Option<&'a str>,
}

impl<'a> ContextCompactionStarted<'a> {
    /// The frame of the event.
    pub open spec fn frame(self) -> JsonView {
        frame(
            METHOD_CONTEXT_COMPACTION_STARTED@,
            JsonView::object()
                .field("roomId"@, JsonView::String(self.room_id@))
                .field("source"@, JsonView::String(self.source@))
                .field_opt("hermesSessionId"@, json::text_opt(self.hermes_session_id.deep_view()))
                .field_opt("messagesBefore"@, json::number_opt(self.messages_before))
                .field_opt("tokensApproxBefore"@, json::number_opt(self.tokens_approx_before))
                .field_opt("model"@, json::text_opt(self.model.deep_view()))
                .field_opt("focus"@, json::text_opt(self.focus.deep_view())),
        )
    }
}

/// The agent began to compact its context.
pub fn context_compaction_started(event: ContextCompactionStarted<'_>) -> (bytes: Vec<u8>)
    ensures
        bytes@ == json::json_text(event.frame()),
        !bytes@.contains(10u8),
{
    encode(
        METHOD_CONTEXT_COMPACTION_STARTED,
        Json::object()
            .field("roomId", Json::string(event.room_id))
            .field("source", Json::string(event.source))
            .field_opt("hermesSessionId", Json::string_opt(event.hermes_session_id))
            .field_opt("messagesBefore", Json::unsigned_opt(event.messages_before))
            .field_opt("tokensApproxBefore", Json::unsigned_opt(event.tokens_approx_before))
            .field_opt("model", Json::string_opt(event.model))
            .field_opt("focus", Json::string_opt(event.focus)),
    )
}

/// The agent compacted its context.
pub struct ContextCompactionDone<'a> {
    pub room_id: &'a str,
    pub source: &'a str,
    pub hermes_session_id: Option<&'a str>,
    pub messages_before: Option<u64>,
    pub messages_after: Option<u64>,
    pub tokens_approx_after: Option<u64>,
    pub compression_count: u64,
    pub previous_segment_id: Option<SegmentId>,
    pub successor_segment_id: Option<SegmentId>,
}

impl<'a> ContextCompactionDone<'a> {
    /// The frame of the event.
    pub open spec fn frame(self) -> JsonView {
        frame(
            METHOD_CONTEXT_COMPACTION_DONE@,
            JsonView::object()
                .field("roomId"@, JsonView::String(self.room_id@))
                .field("source"@, JsonView::String(self.source@))
                .field_opt("hermesSessionId"@, json::text_opt(self.hermes_session_id.deep_view()))
                .field_opt("messagesBefore"@, json::number_opt(self.messages_before))
                .field_opt("messagesAfter"@, json::number_opt(self.messages_after))
                .field_opt("tokensApproxAfter"@, json::number_opt(self.tokens_approx_after))
                .field("compressionCount"@, JsonView::Int(self.compression_count as int))
                .field_opt("successorSegmentId"@, SegmentId::json_opt(self.successor_segment_id))
                .field_opt("previousSegmentId"@, SegmentId::json_opt(self.previous_segment_id)),
        )
    }
}

/// The agent compacted its context.
pub fn context_compaction_done(event: ContextCompactionDone<'_>) -> (bytes: Vec<u8>)
    ensures
        bytes@ == json::json_text(event.frame()),
        !bytes@.contains(10u8),
{
    encode(
        METHOD_CONTEXT_COMPACTION_DONE,
        Json::object()
            .field("roomId", Json::string(event.room_id))
            .field("source", Json::string(event.source))
            .field_opt("hermesSessionId", Json::string_opt(event.hermes_session_id))
            .field_opt("messagesBefore", Json::unsigned_opt(event.messages_before))
            .field_opt("messagesAfter", Json::unsigned_opt(event.messages_after))
            .field_opt("tokensApproxAfter", Json::unsigned_opt(event.tokens_approx_after))
            .field("compressionCount", Json::Unsigned(event.compression_count))
            .field_opt("successorSegmentId", SegmentId::to_json_opt(event.successor_segment_id))
            .field_opt("previousSegmentId", SegmentId::to_json_opt(event.previous_segment_id)),
    )
}

} // verus!

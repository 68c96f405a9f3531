//! `session/attach` and `session/detach` in a room: the answer with what the
//! room is doing, and the history, with the answer or streamed after it.

use crate::assoc;
use crate::json;
use crate::json::{Json, JsonView, ToJson};
use crate::protocol::amux;
use crate::protocol::amux::SegmentId;
use crate::protocol::attach::{
    AttachActiveTurn, AttachActiveTurnView, AttachAmuxMeta, AttachAmuxMetaView, AttachMeta,
    AttachMetaView, AttachParams, AttachParamsView, AttachPendingPermission,
    AttachPendingPermissionView, AttachQueueItem, AttachQueueItemView, AttachResult,
    AttachResultView, AttachSnapshot, AttachSnapshotView, ConnectedClient, ConnectedClientView,
    HistoryDelivery, HistoryEntry, HistoryEntryView, HistoryPolicy, ReplayOrder, SegmentSummary,
    ATTACH_ERR_NOT_FOUND,
};
use crate::protocol::jsonrpc::{IncomingRequest, RequestView};
use crate::room::state::{
    AttachStreamBackfill, BackfillView, FramePage, RoomEntry, RoomEntryView, RoomInner, RoomView,
    ScheduledBackfill, ScheduledView, PRE_SEGMENT_ID,
};
use crate::room::turns;
use crate::room::turns::{apply_history_replay_order, streaming_replay_segments};
use crate::session::attach;
use crate::session::attach::{asks_for_other, collect_history};
use crate::session::state::{
    PermissionFrame, PermissionView, QueuedPromptKind, QueuedPromptView, SessionView,
};
use crate::table;
use vstd::prelude::*;

verus! {

/// How long streaming waits after the answer.
pub const FIRST_BACKFILL_DELAY_MS: u64 = 25;

/// How long streaming waits between pages.
pub const NEXT_BACKFILL_DELAY_MS: u64 = 1;

/// Whether a frame belongs to what a client sees by default: it was recorded in
/// the active segment, or before the first one.
pub open spec fn is_current(entry: RoomEntryView, active: Option<SegmentId>) -> bool {
    entry.segment_id.0 == PRE_SEGMENT_ID || active == Some(entry.segment_id)
}

/// The frames that belong to what a client sees by default.
pub open spec fn current(log: Seq<RoomEntryView>, active: Option<SegmentId>) -> Seq<RoomEntryView>
    decreases log.len(),
{
    if log.len() == 0 {
        Seq::empty()
    } else if is_current(log.last(), active) {
        current(log.drop_last(), active).push(log.last())
    } else {
        current(log.drop_last(), active)
    }
}

/// Recorded frames as they are replayed.
pub open spec fn replayed(entries: Seq<RoomEntryView>) -> Seq<Seq<u8>> {
    entries.map_values(|entry: RoomEntryView| entry.entry.replayed())
}

/// The number of the last entry, or zero.
pub open spec fn boundary(entries: Seq<RoomEntryView>) -> u64 {
    if entries.len() == 0 {
        0
    } else {
        entries.last().entry.seq
    }
}

/// A queued prompt as clients see it.
pub open spec fn queue_item_view(item: QueuedPromptView) -> AttachQueueItemView {
    AttachQueueItemView {
        queue_item_id: item.queue_item_id,
        peer_id: item.peer_id,
        kind: match item.kind {
            QueuedPromptKind::Prompt => "prompt"@,
            QueuedPromptKind::Queue => "queue"@,
            QueuedPromptKind::HardSteer { .. } => "hard_steer"@,
        },
        status: "queued"@,
    }
}

/// The tool call that a permission request is about.
pub open spec fn tool_call(frame: Seq<u8>) -> Option<JsonView> {
    match json::json_document(frame) {
        Some(document) => match document.get("params"@) {
            Some(params) => params.get("toolCall"@),
            None => None,
        },
        None => None,
    }
}

/// The first of the members of a tool call that can name it.
pub open spec fn tool_label(call: JsonView) -> Option<JsonView> {
    match call.get("title"@) {
        Some(title) => Some(title),
        None => match call.get("toolName"@) {
            Some(name) => Some(name),
            None => call.get("name"@),
        },
    }
}

/// A permission request that waits, as clients see it.
pub open spec fn permission_summary(permission: PermissionView) -> AttachPendingPermissionView {
    let call = tool_call(permission.frame);
    AttachPendingPermissionView {
        request_id: permission.id.json(),
        tool_name: match call {
            Some(call) => match tool_label(call) {
                Some(label) => label.as_str(),
                None => None,
            },
            None => None,
        },
        summary: match call {
            Some(call) => call.get_str("title"@),
            None => None,
        },
    }
}

impl BackfillView {
    /// The frame that says that streaming of older history begins.
    pub open spec fn started_frame(self) -> Seq<u8> {
        json::json_text(
            amux::replay_started_frame(
                self.room_id,
                "backfill"@,
                self.replay_order.text(),
                self.replay_generation,
                self.replay_boundary_seq,
                self.frame_count,
            ),
        )
    }

    /// The frame that says that streaming of older history is done.
    pub open spec fn complete_frame(self) -> Seq<u8> {
        json::json_text(
            amux::replay_complete_frame(
                self.room_id,
                "backfill"@,
                self.replay_order.text(),
                self.replay_generation,
                self.replay_boundary_seq,
                self.frame_count,
            ),
        )
    }

    /// What is sent next: the marker, where nothing was sent yet, and a page.
    pub open spec fn next_frames(self) -> Seq<Seq<u8>> {
        let marker = if self.started {
            Seq::empty()
        } else {
            seq![self.started_frame()]
        };
        if self.segments.len() == 0 {
            marker
        } else {
            marker + self.segments[0]
        }
    }

    /// What is left after that.
    pub open spec fn rest(self) -> BackfillView {
        BackfillView {
            started: true,
            segments: if self.segments.len() == 0 {
                self.segments
            } else {
                self.segments.drop_first()
            },
            ..self
        }
    }
}

impl RoomView {
    /// The frames that a policy asks for.
    pub open spec fn entries_for(self, policy: HistoryPolicy) -> Seq<RoomEntryView> {
        match self.replay_log {
            None => Seq::empty(),
            Some(log) => match policy {
                HistoryPolicy::FullLineage => log,
                _ => current(log, self.active_segment_id),
            },
        }
    }

    /// The history that a policy asks for, in the order of recording.
    pub open spec fn history(self, policy: HistoryPolicy) -> Option<Seq<HistoryEntryView>> {
        match policy {
            HistoryPolicy::NoHistory => None,
            HistoryPolicy::PendingOnly => Some(
                attach::history_of(
                    attach::permission_frames(self.session.pending_permission_frames),
                ),
            ),
            _ => Some(attach::history_of(replayed(self.entries_for(policy)))),
        }
    }

    /// The peer itself, as clients see it.
    pub open spec fn self_peer(self, peer_id: Seq<char>) -> ConnectedClientView {
        let clients = attach::clients_of(self.session.subscribers);
        let at = client_position(clients, peer_id);
        if at < clients.len() {
            clients[at]
        } else {
            ConnectedClientView { client_id: peer_id, name: self.session.peer_labels(peer_id).0 }
        }
    }

    /// The turn that is active, and whose it is.
    pub open spec fn active_turn(self) -> Option<AttachActiveTurnView> {
        match (self.session.active_amux_turn_id, self.session.active_turn_mux_id) {
            (Some(turn_id), Some(mux_id)) => match self.session.turn_owner(mux_id) {
                Some(peer_id) => Some(
                    AttachActiveTurnView { amux_turn_id: turn_id.text(), peer_id },
                ),
                None => None,
            },
            _ => None,
        }
    }

    /// The state of the room at the moment of attaching.
    pub open spec fn attach_snapshot(self, peer_id: Seq<char>, replay_boundary_seq: u64) ->
        AttachSnapshotView {
        AttachSnapshotView {
            connected_clients: attach::clients_of(self.session.subscribers),
            self_peer: self.self_peer(peer_id),
            active_turn: self.active_turn(),
            queue: self.session.queued_prompts.map_values(
                |item: QueuedPromptView| queue_item_view(item),
            ),
            pending_permissions: self.session.pending_permission_frames.map_values(
                |permission: PermissionView| permission_summary(permission),
            ),
            replay_boundary_seq,
            replay_generation: self.session.replay_generation,
            segments: self.segments,
            active_segment_id: self.active_segment_id,
            compression_count: self.compression_count,
            compaction: self.compaction,
        }
    }

    /// Whether history is streamed for a request.
    pub open spec fn streams(params: AttachParamsView) -> bool {
        &&& params.history_delivery() == HistoryDelivery::Stream
        &&& params.policy() == HistoryPolicy::Full || params.policy() == HistoryPolicy::FullLineage
    }

    /// The answer to `session/attach`.
    pub open spec fn attach_result(self, peer_id: Seq<char>, params: AttachParamsView) ->
        AttachResultView {
        let streams = Self::streams(params);
        AttachResultView {
            session_id: self.session.resolved_session_id(),
            client_id: match params.client_id {
                Some(id) => id,
                None => peer_id,
            },
            history_policy: params.policy(),
            history: if streams {
                None
            } else {
                match self.history(params.policy()) {
                    Some(history) => Some(
                        turns::in_order::<HistoryEntry>(history, params.replay_order()),
                    ),
                    None => None,
                }
            },
            meta: AttachMetaView {
                amux: AttachAmuxMetaView {
                    connected_clients: attach::clients_of(self.session.subscribers),
                    applied_replay_order: params.replay_order(),
                    applied_history_delivery: if streams {
                        HistoryDelivery::Stream
                    } else {
                        HistoryDelivery::Response
                    },
                    snapshot: if streams {
                        Some(
                            self.attach_snapshot(
                                peer_id,
                                boundary(self.entries_for(params.policy())),
                            ),
                        )
                    } else {
                        None
                    },
                },
            },
        }
    }

    /// The room with another state of its session.
    pub open spec fn with_session(self, session: SessionView) -> RoomView {
        RoomView { session, ..self }
    }

    /// More history is to be streamed after a while.
    pub open spec fn schedule(self, plan: BackfillView, delay_ms: u64) -> RoomView {
        RoomView { scheduled: self.scheduled.push(ScheduledView { plan, delay_ms }), ..self }
    }

    /// A marker around the turn that is streamed at once.
    pub open spec fn latest_marker(
        self,
        order: ReplayOrder,
        replay_boundary_seq: u64,
        count: usize,
        done: bool,
    ) -> Seq<u8> {
        json::json_text(
            if done {
                amux::replay_complete_frame(
                    self.session.session_id,
                    "latest_segment"@,
                    order.text(),
                    self.session.replay_generation,
                    replay_boundary_seq,
                    count,
                )
            } else {
                amux::replay_started_frame(
                    self.session.session_id,
                    "latest_segment"@,
                    order.text(),
                    self.session.replay_generation,
                    replay_boundary_seq,
                    count,
                )
            },
        )
    }

    /// What is streamed at once: the latest turn between its markers, where
    /// there is one.
    pub open spec fn latest_frames(
        self,
        latest: Seq<RoomEntryView>,
        order: ReplayOrder,
        replay_boundary_seq: u64,
    ) -> Seq<Seq<u8>> {
        if latest.len() == 0 {
            Seq::empty()
        } else {
            let count = latest.len() as usize;
            seq![self.latest_marker(order, replay_boundary_seq, count, false)] + replayed(latest)
                + seq![self.latest_marker(order, replay_boundary_seq, count, true)]
        }
    }

    /// History is streamed to a peer: the latest turn and the permission
    /// requests that wait at once, the rest page by page.
    pub open spec fn stream_attach_history(
        self,
        peer_id: Seq<char>,
        entries: Seq<RoomEntryView>,
        order: ReplayOrder,
        replay_boundary_seq: u64,
        permissions: Seq<Seq<u8>>,
    ) -> RoomView {
        let (latest, pages) = turns::streamed::<RoomEntry>(entries, order);
        let at_once = self.latest_frames(latest, order, replay_boundary_seq) + permissions;
        let sent = self.with_session(self.session.send_frames_to(peer_id, at_once));
        let cut_off = !self.session.reachable(peer_id) && at_once.len() > 0;
        if !assoc::holds(self.session.subscribers, peer_id) || cut_off || pages.len() == 0 {
            sent
        } else {
            sent.schedule(
                BackfillView {
                    peer_id,
                    room_id: self.session.session_id,
                    replay_order: order,
                    replay_generation: self.session.replay_generation,
                    replay_boundary_seq,
                    frame_count: turns::total(pages) as usize,
                    segments: pages.map_values(|page: Seq<RoomEntryView>| replayed(page)),
                    started: false,
                },
                FIRST_BACKFILL_DELAY_MS,
            )
        }
    }

    /// The next page of a streamed history. A peer whose channel is closed gets
    /// nothing more.
    pub open spec fn send_attach_backfill_page(self, plan: BackfillView) -> RoomView {
        let frames = plan.next_frames();
        let cut_off = !self.session.reachable(plan.peer_id) && frames.len() > 0;
        if !assoc::holds(self.session.subscribers, plan.peer_id) || cut_off {
            self
        } else {
            let sent = self.with_session(self.session.send_frames_to(plan.peer_id, frames));
            if plan.rest().segments.len() == 0 {
                sent.with_session(
                    sent.session.send_frames_to(plan.peer_id, seq![plan.complete_frame()]),
                )
            } else {
                sent.schedule(plan.rest(), NEXT_BACKFILL_DELAY_MS)
            }
        }
    }

    /// `session/attach`.
    pub open spec fn handle_attach(self, peer_id: Seq<char>, req: RequestView) -> RoomView {
        let params = AttachParamsView::of_request(req.params);
        let resolved = self.session.resolved_session_id();
        if attach::names_other(params.session_id, resolved, self.session.session_id) {
            self.with_session(
                self.session.send_error_response(
                    peer_id,
                    req.id,
                    ATTACH_ERR_NOT_FOUND,
                    "session not found"@,
                ),
            )
        } else {
            let answered = self.with_session(
                self.session.send_result_response(
                    peer_id,
                    req.id,
                    AttachResult::json_of(self.attach_result(peer_id, params)),
                ),
            );
            let permissions = attach::permission_frames(self.session.pending_permission_frames);
            if Self::streams(params) {
                let entries = self.entries_for(params.policy());
                answered.stream_attach_history(
                    peer_id,
                    entries,
                    params.replay_order(),
                    boundary(entries),
                    permissions,
                )
            } else {
                answered.with_session(answered.session.send_frames_to(peer_id, permissions))
            }
        }
    }
}

/// The first client with the given id, or the number of clients.
pub open spec fn client_position(clients: Seq<ConnectedClientView>, client_id: Seq<char>) -> int
    decreases clients.len(),
{
    if clients.len() == 0 || clients[0].client_id == client_id {
        0
    } else {
        1 + client_position(clients.drop_first(), client_id)
    }
}

proof fn lemma_client_position(clients: Seq<ConnectedClientView>, client_id: Seq<char>, at: int)
    requires
        0 <= at <= clients.len(),
        forall|i: int| 0 <= i < at ==> (#[trigger] clients[i]).client_id != client_id,
        at < clients.len() ==> clients[at].client_id == client_id,
    ensures
        client_position(clients, client_id) == at,
    decreases clients.len(),
{
    if at > 0 {
        let rest = clients.drop_first();
        assert forall|i: int| 0 <= i < at - 1 implies (#[trigger] rest[i]).client_id
            != client_id by {
            assert(rest[i] == clients[i + 1]);
        }
        lemma_client_position(rest, client_id, at - 1);
    }
}

/// Recorded frames as they are replayed.
pub fn replay_frames_of(entries: &Vec<RoomEntry>) -> (frames: Vec<Vec<u8>>)
    ensures
        attach::frames_view(frames@) == replayed(entries.deep_view()),
        frames@.len() == entries@.len(),
{
    let mut frames: Vec<Vec<u8>> = Vec::new();
    let mut at: usize = 0;
    while at < entries.len()
        invariant
            at <= entries@.len(),
            frames@.len() == at,
            forall|i: int|
                0 <= i < at ==> (#[trigger] frames@[i])@ == entries@[i].entry.deep_view().replayed(),
        decreases entries@.len() - at,
    {
        frames.push(entries[at].entry.frame_for_replay());
        at += 1;
    }
    assert(attach::frames_view(frames@) =~= replayed(entries.deep_view()));
    frames
}

/// What clients see of a permission request that waits.
pub fn summarize_permission(permission: &PermissionFrame) -> (summary: AttachPendingPermission)
    ensures
        summary.deep_view() == permission_summary(permission.deep_view()),
{
    let request_id = permission.id.to_json();
    let call = match Json::parse(&permission.frame) {
        Ok(document) => match document.get("params") {
            Some(params) => params.get_owned("toolCall"),
            None => None,
        },
        Err(_) => None,
    };
    match call {
        Some(call) => {
            let label = match call.get("title") {
                Some(title) => Some(title),
                None => match call.get("toolName") {
                    Some(name) => Some(name),
                    None => call.get("name"),
                },
            };
            let tool_name = match label {
                Some(label) => match label.as_str() {
                    Some(name) => Some(name.to_owned()),
                    None => None,
                },
                None => None,
            };
            let summary = match call.get_str("title") {
                Some(title) => Some(title.to_owned()),
                None => None,
            };
            AttachPendingPermission { request_id, tool_name, summary }
        },
        None => AttachPendingPermission { request_id, tool_name: None, summary: None },
    }
}

impl RoomInner {
    /// The frames that a policy asks for.
    pub fn replay_entries_for_policy(&self, policy: HistoryPolicy) -> (entries: Vec<RoomEntry>)
        ensures
            entries.deep_view() == self@.entries_for(policy),
    {
        let mut entries: Vec<RoomEntry> = Vec::new();
        assert(entries.deep_view() =~= Seq::empty());
        let log = match &self.replay_log {
            Some(log) => log,
            None => {
                return entries;
            },
        };
        let ghost all = log.deep_view();
        let lineage = policy == HistoryPolicy::FullLineage;
        let mut at: usize = 0;
        assert(all.take(0) =~= Seq::empty());
        while at < log.len()
            invariant
                at <= log@.len(),
                all == log.deep_view(),
                entries.deep_view() == if lineage {
                    all.take(at as int)
                } else {
                    current(all.take(at as int), self@.active_segment_id)
                },
            decreases log@.len() - at,
        {
            assert(all.take(at + 1).drop_last() =~= all.take(at as int));
            assert(all[at as int] == log@[at as int].deep_view());
            let ghost before = entries.deep_view();
            let segment_id = log[at].segment_id;
            let active = match self.active_segment_id {
                Some(active) => active == segment_id,
                None => false,
            };
            if lineage || segment_id.0 == PRE_SEGMENT_ID || active {
                let entry = log[at].clone();
                entries.push(entry);
                assert(entries.deep_view() =~= before.push(all[at as int]));
                assert(all.take(at + 1) =~= all.take(at as int).push(all[at as int]));
            }
            at += 1;
        }
        assert(all.take(at as int) =~= all);
        entries
    }

    /// The history of the current segment.
    pub fn history_full(&self) -> (history: Vec<HistoryEntry>)
        ensures
            Some(history.deep_view()) == self@.history(HistoryPolicy::Full),
    {
        collect_history(&replay_frames_of(&self.replay_entries_for_policy(HistoryPolicy::Full)))
    }

    /// The history of all segments.
    pub fn history_full_lineage(&self) -> (history: Vec<HistoryEntry>)
        ensures
            Some(history.deep_view()) == self@.history(HistoryPolicy::FullLineage),
    {
        collect_history(
            &replay_frames_of(&self.replay_entries_for_policy(HistoryPolicy::FullLineage)),
        )
    }

    /// The permission requests that wait, as history.
    pub fn history_pending_only(&self) -> (history: Vec<HistoryEntry>)
        ensures
            Some(history.deep_view()) == self@.history(HistoryPolicy::PendingOnly),
    {
        self.session.history_pending_only()
    }

    fn find_self_peer(&self, peer_id: &str, clients: &Vec<ConnectedClient>) -> (peer:
        ConnectedClient)
        requires
            clients.deep_view() == attach::clients_of(self@.session.subscribers),
        ensures
            peer.deep_view() == self@.self_peer(peer_id@),
    {
        let ghost all = clients.deep_view();
        let wanted = peer_id.to_owned();
        let mut at: usize = 0;
        while at < clients.len()
            invariant
                at <= clients@.len(),
                all == clients.deep_view(),
                all == attach::clients_of(self@.session.subscribers),
                wanted@ == peer_id@,
                forall|i: int| 0 <= i < at ==> (#[trigger] all[i]).client_id != peer_id@,
            decreases clients@.len() - at,
        {
            assert(all[at as int] == clients@[at as int].deep_view());
            if clients[at].client_id == wanted {
                proof {
                    lemma_client_position(all, peer_id@, at as int);
                }
                return clients[at].clone();
            }
            at += 1;
        }
        proof {
            lemma_client_position(all, peer_id@, at as int);
        }
        let (name, _) = self.session.peer_labels(peer_id);
        ConnectedClient { client_id: wanted, name }
    }

    fn queue_items(&self) -> (items: Vec<AttachQueueItem>)
        ensures
            items.deep_view() == self@.session.queued_prompts.map_values(
                |item: QueuedPromptView| queue_item_view(item),
            ),
    {
        let mut items: Vec<AttachQueueItem> = Vec::new();
        let mut at: usize = 0;
        while at < self.session.queued_prompts.len()
            invariant
                at <= self.session.queued_prompts@.len(),
                items@.len() == at,
                forall|i: int|
                    0 <= i < at ==> (#[trigger] items@[i]).deep_view() == queue_item_view(
                        self.session.queued_prompts@[i].deep_view(),
                    ),
            decreases self.session.queued_prompts@.len() - at,
        {
            let item = &self.session.queued_prompts[at];
            let kind = match item.kind {
                QueuedPromptKind::Prompt => "prompt",
                QueuedPromptKind::Queue => "queue",
                QueuedPromptKind::HardSteer { .. } => "hard_steer",
            };
            items.push(
                AttachQueueItem {
                    queue_item_id: item.queue_item_id.clone(),
                    peer_id: item.peer_id.clone(),
                    kind: kind.to_owned(),
                    status: "queued",
                },
            );
            at += 1;
        }
        assert(items.deep_view() =~= self@.session.queued_prompts.map_values(
            |item: QueuedPromptView| queue_item_view(item),
        ));
        items
    }

    /// What clients see of the permission requests that wait.
    pub fn pending_permission_summaries(&self) -> (summaries: Vec<AttachPendingPermission>)
        ensures
            summaries.deep_view() == self@.session.pending_permission_frames.map_values(
                |permission: PermissionView| permission_summary(permission),
            ),
    {
        let mut summaries: Vec<AttachPendingPermission> = Vec::new();
        let mut at: usize = 0;
        while at < self.session.pending_permission_frames.len()
            invariant
                at <= self.session.pending_permission_frames@.len(),
                summaries@.len() == at,
                forall|i: int|
                    0 <= i < at ==> (#[trigger] summaries@[i]).deep_view() == permission_summary(
                        self.session.pending_permission_frames@[i].deep_view(),
                    ),
            decreases self.session.pending_permission_frames@.len() - at,
        {
            summaries.push(summarize_permission(&self.session.pending_permission_frames[at]));
            at += 1;
        }
        assert(summaries.deep_view() =~= self@.session.pending_permission_frames.map_values(
            |permission: PermissionView| permission_summary(permission),
        ));
        summaries
    }

    fn segment_summaries(&self) -> (summaries: Vec<SegmentSummary>)
        ensures
            summaries.deep_view() == self@.segments,
    {
        let mut summaries: Vec<SegmentSummary> = Vec::new();
        let mut at: usize = 0;
        while at < self.segments.len()
            invariant
                at <= self.segments@.len(),
                summaries@.len() == at,
                forall|i: int|
                    0 <= i < at ==> (#[trigger] summaries@[i]).deep_view()
                        == self.segments@[i].deep_view(),
            decreases self.segments@.len() - at,
        {
            summaries.push(self.segments[at].clone());
            at += 1;
        }
        assert(summaries.deep_view() =~= self@.segments);
        summaries
    }

    /// The state of the room at the moment of attaching.
    pub fn attach_snapshot(&self, peer_id: &str, replay_boundary_seq: u64) -> (snapshot:
        AttachSnapshot)
        ensures
            snapshot.deep_view() == self@.attach_snapshot(peer_id@, replay_boundary_seq),
    {
        let connected_clients = self.session.connected_clients();
        let self_peer = self.find_self_peer(peer_id, &connected_clients);
        let active_turn = match (
            self.session.active_amux_turn_id,
            self.session.active_turn_mux_id,
        ) {
            (Some(turn_id), Some(mux_id)) => match table::get(&self.session.pending, &mux_id) {
                Some(pending) => Some(
                    AttachActiveTurn {
                        amux_turn_id: turn_id.formatted(),
                        peer_id: pending.peer_id.clone(),
                    },
                ),
                None => None,
            },
            _ => None,
        };
        let compaction = match &self.compaction {
            Some(compaction) => Some(compaction.clone()),
            None => None,
        };
        AttachSnapshot {
            connected_clients,
            self_peer,
            active_turn,
            queue: self.queue_items(),
            pending_permissions: self.pending_permission_summaries(),
            replay_boundary_seq,
            replay_generation: self.session.replay_generation,
            segments: self.segment_summaries(),
            active_segment_id: self.active_segment_id,
            compression_count: self.compression_count,
            compaction,
        }
    }

    /// Notes that more history is to be streamed after a while.
    pub fn schedule_attach_backfill(&mut self, plan: AttachStreamBackfill, delay_ms: u64)
        ensures
            final(self)@ == old(self)@.schedule(plan.deep_view(), delay_ms),
    {
        let scheduled = ScheduledBackfill { plan, delay_ms };
        self.scheduled.push(scheduled);
        assert(self.scheduled.deep_view() =~= old(self)@.scheduled.push(scheduled.deep_view()));
    }
}

/// The pages of a streamed history, and how many frames they hold.
fn frame_pages(pages: &Vec<Vec<RoomEntry>>) -> (counted: (Vec<FramePage>, usize))
    requires
        turns::total(pages.deep_view()) <= usize::MAX,
    ensures
        counted.0.deep_view() == pages.deep_view().map_values(
            |page: Seq<RoomEntryView>| replayed(page),
        ),
        counted.1 == turns::total(pages.deep_view()),
{
    let ghost all = pages.deep_view();
    let mut built: Vec<FramePage> = Vec::new();
    let mut count: usize = 0;
    let mut at: usize = 0;
    assert(all.take(0) =~= Seq::empty());
    while at < pages.len()
        invariant
            at <= pages@.len(),
            all == pages.deep_view(),
            turns::total(all) <= usize::MAX,
            built@.len() == at,
            forall|i: int| 0 <= i < at ==> (#[trigger] built@[i]).deep_view() == replayed(all[i]),
            count == turns::total(all.take(at as int)),
        decreases pages@.len() - at,
    {
        assert(all.take(at + 1).drop_last() =~= all.take(at as int));
        assert(all[at as int] == pages@[at as int].deep_view());
        proof {
            lemma_total_grows(all, at + 1);
        }
        let frames = replay_frames_of(&pages[at]);
        count += pages[at].len();
        built.push(FramePage { frames });
        at += 1;
    }
    assert(all.take(at as int) =~= all);
    assert(built.deep_view() =~= all.map_values(|page: Seq<RoomEntryView>| replayed(page)));
    (built, count)
}

proof fn lemma_total_grows<T>(lists: Seq<Seq<T>>, at: int)
    requires
        0 <= at <= lists.len(),
    ensures
        turns::total(lists.take(at)) <= turns::total(lists),
    decreases lists.len() - at,
{
    if at < lists.len() {
        assert(lists.take(at + 1).drop_last() =~= lists.take(at));
        lemma_total_grows(lists, at + 1);
    } else {
        assert(lists.take(at) =~= lists);
    }
}

impl RoomInner {
    fn latest_marker(
        &self,
        order: ReplayOrder,
        replay_boundary_seq: u64,
        count: usize,
        done: bool,
    ) -> (frame: Vec<u8>)
        ensures
            frame@ == self@.latest_marker(order, replay_boundary_seq, count, done),
    {
        if done {
            amux::replay_complete(
                &self.session.session_id,
                "latest_segment",
                order.as_str(),
                self.session.replay_generation,
                replay_boundary_seq,
                count,
            )
        } else {
            amux::replay_started(
                &self.session.session_id,
                "latest_segment",
                order.as_str(),
                self.session.replay_generation,
                replay_boundary_seq,
                count,
            )
        }
    }

    fn latest_frames(
        &self,
        latest: &Vec<RoomEntry>,
        order: ReplayOrder,
        replay_boundary_seq: u64,
    ) -> (frames: Vec<Vec<u8>>)
        ensures
            attach::frames_view(frames@) == self@.latest_frames(
                latest.deep_view(),
                order,
                replay_boundary_seq,
            ),
    {
        let mut frames: Vec<Vec<u8>> = Vec::new();
        let count: usize = latest.len();
        assert(latest.deep_view().len() == count);
        if count > 0 {
            let first = self.latest_marker(order, replay_boundary_seq, count, false);
            let last = self.latest_marker(order, replay_boundary_seq, count, true);
            let mut middle = replay_frames_of(latest);
            let ghost inner = attach::frames_view(middle@);
            frames.push(first);
            frames.append(&mut middle);
            frames.push(last);
            assert(attach::frames_view(frames@) =~= seq![first@] + inner + seq![last@]);
        } else {
            assert(attach::frames_view(frames@) =~= Seq::empty());
        }
        frames
    }

    /// Streams history to a peer.
    pub fn stream_attach_history(
        &mut self,
        peer_id: &str,
        entries: Vec<RoomEntry>,
        replay_order: ReplayOrder,
        replay_boundary_seq: u64,
        pending_permission_frames: Vec<Vec<u8>>,
    )
        ensures
            final(self)@ == old(self)@.stream_attach_history(
                peer_id@,
                entries.deep_view(),
                replay_order,
                replay_boundary_seq,
                attach::frames_view(pending_permission_frames@),
            ),
    {
        let attached = table::contains(&self.session.subscribers, &peer_id.to_owned());
        let open = self.session.reachable(peer_id);
        let recorded: usize = entries.len();
        proof {
            turns::law_streamed_keeps_all::<RoomEntry>(entries.deep_view(), replay_order);
            assert(entries.deep_view().len() == recorded);
        }
        let (latest, pages) = streaming_replay_segments(entries, replay_order);
        let mut at_once = self.latest_frames(&latest, replay_order, replay_boundary_seq);
        let ghost first = attach::frames_view(at_once@);
        let mut permissions = pending_permission_frames;
        let ghost waiting = attach::frames_view(permissions@);
        at_once.append(&mut permissions);
        assert(attach::frames_view(at_once@) =~= first + waiting);
        let cut_off = !open && at_once.len() > 0;
        self.session.send_frames_to(peer_id, at_once);
        if !attached || cut_off || pages.len() == 0 {
            return;
        }
        let (segments, frame_count) = frame_pages(&pages);
        let plan = AttachStreamBackfill {
            peer_id: peer_id.to_owned(),
            room_id: self.session.session_id.clone(),
            replay_order,
            replay_generation: self.session.replay_generation,
            replay_boundary_seq,
            frame_count,
            segments,
            started: false,
        };
        self.schedule_attach_backfill(plan, FIRST_BACKFILL_DELAY_MS);
    }

    /// Streams the next page of a history.
    pub fn send_attach_backfill_page(&mut self, plan: AttachStreamBackfill)
        ensures
            final(self)@ == old(self)@.send_attach_backfill_page(plan.deep_view()),
    {
        let mut plan = plan;
        let ghost before = plan.deep_view();
        let attached = table::contains(&self.session.subscribers, &plan.peer_id);
        if !attached {
            return;
        }
        let open = self.session.reachable(&plan.peer_id);
        let mut frames: Vec<Vec<u8>> = Vec::new();
        assert(attach::frames_view(frames@) =~= Seq::empty());
        if !plan.started {
            let marker = amux::replay_started(
                &plan.room_id,
                "backfill",
                plan.replay_order.as_str(),
                plan.replay_generation,
                plan.replay_boundary_seq,
                plan.frame_count,
            );
            frames.push(marker);
            assert(attach::frames_view(frames@) =~= seq![marker@]);
            plan.started = true;
        }
        let ghost marker = attach::frames_view(frames@);
        if plan.segments.len() > 0 {
            let ghost waiting = plan.segments@;
            let page = plan.segments.remove(0);
            assert(before.segments[0] == page.deep_view());
            assert(plan.segments.deep_view() =~= before.segments.drop_first()) by {
                assert(forall|i: int| 0 <= i < plan.segments@.len() ==>
                    #[trigger] plan.segments@[i] == waiting[i + 1]);
            }
            let ghost inner = attach::frames_view(page.frames@);
            let mut page_frames = page.frames;
            frames.append(&mut page_frames);
            assert(attach::frames_view(frames@) =~= marker + inner);
            assert(inner =~= before.segments[0]);
        }
        assert(attach::frames_view(frames@) =~= before.next_frames());
        assert(plan.deep_view() =~= before.rest());
        if !open && frames.len() > 0 {
            return;
        }
        self.session.send_frames_to(&plan.peer_id, frames);
        if plan.segments.len() == 0 {
            let marker = amux::replay_complete(
                &plan.room_id,
                "backfill",
                plan.replay_order.as_str(),
                plan.replay_generation,
                plan.replay_boundary_seq,
                plan.frame_count,
            );
            let mut last: Vec<Vec<u8>> = Vec::new();
            last.push(marker);
            assert(attach::frames_view(last@) =~= seq![marker@]);
            self.session.send_frames_to(&plan.peer_id, last);
        } else {
            self.schedule_attach_backfill(plan, NEXT_BACKFILL_DELAY_MS);
        }
    }

    /// Handles `session/attach`.
    pub fn handle_attach(&mut self, peer_id: &str, req: IncomingRequest)
        ensures
            final(self)@ == old(self)@.handle_attach(peer_id@, req@),
    {
        let params = AttachParams::from_request(&req.params);
        let policy = params.policy();
        let replay_order = params.replay_order();
        let resolved = self.session.resolved_session_id();
        if asks_for_other(&params.session_id, &resolved, &self.session.session_id) {
            self.session.send_error_response(
                peer_id,
                req.id,
                ATTACH_ERR_NOT_FOUND,
                "session not found",
            );
            return;
        }
        let streams = params.history_delivery() == HistoryDelivery::Stream && (policy
            == HistoryPolicy::Full || policy == HistoryPolicy::FullLineage);
        let entries: Vec<RoomEntry> = if streams {
            self.replay_entries_for_policy(policy)
        } else {
            Vec::new()
        };
        let replay_boundary_seq: u64 = if entries.len() == 0 {
            0
        } else {
            entries[entries.len() - 1].entry.seq
        };
        assert(entries.deep_view().len() == entries@.len());
        let snapshot = if streams {
            Some(self.attach_snapshot(peer_id, replay_boundary_seq))
        } else {
            None
        };
        let history = if streams {
            None
        } else {
            match policy {
                HistoryPolicy::NoHistory => None,
                HistoryPolicy::PendingOnly => Some(
                    apply_history_replay_order(self.history_pending_only(), replay_order),
                ),
                HistoryPolicy::FullLineage => Some(
                    apply_history_replay_order(self.history_full_lineage(), replay_order),
                ),
                HistoryPolicy::Full => Some(
                    apply_history_replay_order(self.history_full(), replay_order),
                ),
                HistoryPolicy::AfterMessage => Some(
                    apply_history_replay_order(self.history_full(), replay_order),
                ),
            }
        };
        let client_id = match params.client_id {
            Some(id) => id,
            None => peer_id.to_owned(),
        };
        let result = AttachResult {
            session_id: resolved,
            client_id,
            history_policy: policy,
            history,
            meta: AttachMeta {
                amux: AttachAmuxMeta {
                    connected_clients: self.session.connected_clients(),
                    applied_replay_order: replay_order,
                    applied_history_delivery: if streams {
                        HistoryDelivery::Stream
                    } else {
                        HistoryDelivery::Response
                    },
                    snapshot,
                },
            },
        };
        assert(result.deep_view() =~= self@.attach_result(
            peer_id@,
            AttachParamsView::of_request(req@.params),
        ));
        let permissions = self.session.waiting_permission_frames();
        self.session.send_result_response(peer_id, req.id, result.to_json());
        if streams {
            self.stream_attach_history(
                peer_id,
                entries,
                replay_order,
                replay_boundary_seq,
                permissions,
            );
        } else {
            self.session.send_frames_to(peer_id, permissions);
        }
    }

    /// Handles `session/detach`.
    pub fn handle_detach(&mut self, peer_id: &str, req: IncomingRequest)
        ensures
            final(self)@ == old(self)@.with_session(
                old(self)@.session.handle_detach(peer_id@, req@),
            ),
    {
        self.session.handle_detach(peer_id, req);
    }
}

} // verus!

//! How peers come and go, and what they are shown of the session.

use crate::assoc;
use crate::json;
use crate::json::{Json, JsonView, ToJson};
use crate::multiplex::subscriber::{
    copy_bytes, Delivery, DeliveryView, OutMsg, OutMsgView, Subscriber, SubscriberView,
};
use crate::protocol::amux;
use crate::protocol::attach::{
    AttachParams, AttachParamsView, BaselineAttachResult, BaselineAttachResultView, ConnectedClient,
    ConnectedClientView, DetachParams, DetachResult, DetachResultView, HistoryEntry,
    HistoryEntryView, HistoryPolicy, ATTACH_ERR_NOT_FOUND,
};
use crate::protocol::jsonrpc::{IncomingRequest, RequestView};
use crate::protocol::session_update;
use crate::session::state;
use crate::session::state::{
    AttachError, PermissionView, QueuedPromptView, ReplayEntry, ReplayEntryView, SessionInner,
    SessionView,
};
use crate::session::turn::text_ref;
use crate::table;
use crate::text::same_text;
use vstd::prelude::*;

verus! {

/// The model of some frames.
pub open spec fn frames_view(frames: Seq<Vec<u8>>) -> Seq<Seq<u8>> {
    frames.map_values(|frame: Vec<u8>| frame@)
}

/// The recorded frames as they are replayed.
pub open spec fn replay_frames(log: Option<Seq<ReplayEntryView>>) -> Seq<Seq<u8>> {
    match log {
        Some(log) => log.map_values(|entry: ReplayEntryView| entry.replayed()),
        None => Seq::empty(),
    }
}

/// The frames of the permission requests that wait.
pub open spec fn permission_frames(pending: Seq<PermissionView>) -> Seq<Seq<u8>> {
    pending.map_values(|permission: PermissionView| permission.frame)
}

/// What the history says of a frame: its method and its parameters.
pub open spec fn history_entry(frame: Seq<u8>) -> Option<HistoryEntryView> {
    match json::json_document(frame) {
        Some(document) => match document.get_str("method"@) {
            Some(method) => Some(
                HistoryEntryView {
                    method,
                    params: match document.get("params"@) {
                        Some(params) => params,
                        None => JsonView::Null,
                    },
                },
            ),
            None => None,
        },
        None => None,
    }
}

/// What the history says of some frames. A frame without a method is left out.
pub open spec fn history_of(frames: Seq<Seq<u8>>) -> Seq<HistoryEntryView>
    decreases frames.len(),
{
    if frames.len() == 0 {
        Seq::empty()
    } else {
        match history_entry(frames.last()) {
            Some(entry) => history_of(frames.drop_last()).push(entry),
            None => history_of(frames.drop_last()),
        }
    }
}

/// The queue items of a peer.
pub open spec fn items_of(prompts: Seq<QueuedPromptView>, peer_id: Seq<char>) -> Seq<Seq<char>>
    decreases prompts.len(),
{
    if prompts.len() == 0 {
        Seq::empty()
    } else {
        let front = items_of(prompts.drop_last(), peer_id);
        match prompts.last().queue_item_id {
            Some(id) => if prompts.last().peer_id == peer_id {
                front.push(id)
            } else {
                front
            },
            None => front,
        }
    }
}

/// The attached peers, as clients see them.
pub open spec fn clients_of(subscribers: Seq<(Seq<char>, SubscriberView)>) -> Seq<
    ConnectedClientView,
> {
    subscribers.map_values(
        |peer: (Seq<char>, SubscriberView)|
            ConnectedClientView { client_id: peer.1.peer_id, name: peer.1.peer_name },
    )
}

/// Whether a request names a session that is not this one.
pub open spec fn names_other(
    requested: Option<Seq<char>>,
    resolved: Seq<char>,
    own: Seq<char>,
) -> bool {
    requested matches Some(id) && id.len() > 0 && id != resolved && id != own
}

/// Whether a request names a session that is not this one.
pub fn asks_for_other(requested: &Option<String>, resolved: &str, own: &str) -> (other: bool)
    ensures
        other == names_other(requested.deep_view(), resolved@, own@),
{
    match requested {
        Some(id) => id.as_str().unicode_len() > 0 && !same_text(id, resolved) && !same_text(
            id,
            own,
        ),
        None => false,
    }
}

impl SessionView {
    /// A message to every peer that takes one. Nobody is dropped.
    pub open spec fn close_all_subscribers(self, code: u16, reason: Seq<char>) -> SessionView {
        SessionView {
            outbox: self.outbox + state::to_each(
                state::live(self.subscribers),
                OutMsgView::Close { code, reason },
            ),
            ..self
        }
    }

    /// A peer is told where the agent runs.
    pub open spec fn send_session_context_to(self, peer_id: Seq<char>) -> SessionView {
        self.send_to(
            peer_id,
            OutMsgView::Frame(
                json::json_text(amux::session_context_frame(self.session_id, self.agent_cwd)),
            ),
        )
    }

    /// A peer attaches: the others are told, then the peer is told where the
    /// agent runs and shown everything recorded before it came.
    pub open spec fn attach(self, subscriber: SubscriberView) -> (
        SessionView,
        Result<(), AttachError>,
    ) {
        let peer_id = subscriber.peer_id;
        if assoc::holds(self.subscribers, peer_id) {
            (self, Err(AttachError::PeerIdInUse))
        } else {
            let told = self.broadcast(
                json::json_text(
                    amux::peer_joined_frame(
                        self.session_id,
                        peer_id,
                        subscriber.peer_name,
                        subscriber.role,
                    ),
                ),
            );
            let joined = SessionView {
                subscribers: assoc::store(told.subscribers, peer_id, subscriber),
                ..told
            }.publish_session_list_metadata();
            (
                joined.send_session_context_to(peer_id).send_frames_to(
                    peer_id,
                    replay_frames(self.replay_log),
                ),
                Ok(()),
            )
        }
    }

    /// Frames to every peer, one after the other.
    pub open spec fn broadcast_all(self, frames: Seq<Seq<u8>>) -> SessionView
        decreases frames.len(),
    {
        if frames.len() == 0 {
            self
        } else {
            self.broadcast_all(frames.drop_last()).broadcast(frames.last())
        }
    }

    /// The frames that tell of the queue items that lost their owner.
    pub open spec fn orphan_frames(self, peer_id: Seq<char>) -> Seq<Seq<u8>> {
        items_of(self.queued_prompts, peer_id).map_values(
            |id: Seq<char>|
                json::json_text(amux::queue_item_orphaned_frame(self.session_id, id, peer_id)),
        )
    }

    /// An attached peer is gone, and the others are told.
    pub open spec fn drop_peer(self, peer_id: Seq<char>, peer: SubscriberView) -> SessionView {
        let left = SessionView {
            subscribers: assoc::erase(self.subscribers, peer_id),
            ..self
        }.broadcast(json::json_text(amux::peer_left_frame(self.session_id, peer_id)));
        let told = match left.acp_session_id() {
            Some(acp_id) => left.broadcast(
                json::json_text(
                    session_update::client_disconnected_frame(acp_id, peer_id, peer.peer_name),
                ),
            ),
            None => left,
        };
        told.broadcast_all(self.orphan_frames(peer_id))
    }

    /// A peer detaches. The second part says whether nobody is left.
    pub open spec fn detach(self, peer_id: Seq<char>) -> (SessionView, bool) {
        let gone = match assoc::lookup(self.subscribers, peer_id) {
            Some(peer) => self.drop_peer(peer_id, peer),
            None => self,
        };
        let undriven = if gone.driving_subscriber_peer_id == Some(peer_id) {
            SessionView { driving_subscriber_peer_id: None, ..gone }
        } else {
            gone
        };
        if undriven.subscribers.len() == 0 {
            (undriven.clear_session_list_metadata(), true)
        } else {
            (undriven.publish_session_list_metadata(), false)
        }
    }

    /// The id that requests may name the session by.
    pub open spec fn resolved_session_id(self) -> Seq<char> {
        match self.acp_session_id() {
            Some(id) => id,
            None => self.session_id,
        }
    }

    /// The history that a policy asks for.
    pub open spec fn history(self, policy: HistoryPolicy) -> Option<Seq<HistoryEntryView>> {
        match policy {
            HistoryPolicy::NoHistory => None,
            HistoryPolicy::PendingOnly => Some(
                history_of(permission_frames(self.pending_permission_frames)),
            ),
            _ => Some(history_of(replay_frames(self.replay_log))),
        }
    }

    /// `session/attach`: the peer is told about the session, and the permission
    /// requests that wait are put to it again.
    pub open spec fn handle_attach(self, peer_id: Seq<char>, req: RequestView) -> SessionView {
        let params = AttachParamsView::of_request(req.params);
        let resolved = self.resolved_session_id();
        if names_other(params.session_id, resolved, self.session_id) {
            self.send_error_response(
                peer_id,
                req.id,
                ATTACH_ERR_NOT_FOUND,
                "session not found"@,
            )
        } else {
            let result = BaselineAttachResultView {
                session_id: resolved,
                client_id: match params.client_id {
                    Some(id) => id,
                    None => peer_id,
                },
                history_policy: params.policy(),
                connected_clients: clients_of(self.subscribers),
                history: self.history(params.policy()),
            };
            self.send_result_response(
                peer_id,
                req.id,
                BaselineAttachResult::json_of(result),
            ).send_frames_to(peer_id, permission_frames(self.pending_permission_frames))
        }
    }

    /// `session/detach`: the peer is answered, and its connection is closed.
    pub open spec fn handle_detach(self, peer_id: Seq<char>, req: RequestView) -> SessionView {
        let resolved = self.resolved_session_id();
        if names_other(DetachParams::session_of(req.params), resolved, self.session_id) {
            self.send_error_response(
                peer_id,
                req.id,
                ATTACH_ERR_NOT_FOUND,
                "session not found"@,
            )
        } else {
            self.send_result_response(
                peer_id,
                req.id,
                DetachResult::json_of(
                    DetachResultView { session_id: resolved, status: "detached"@ },
                ),
            ).send_to(
                peer_id,
                OutMsgView::Close { code: 1000, reason: "client requested detach"@ },
            )
        }
    }
}

/// Telling the peers something touches the log, the outbox and who is still
/// attached, and nothing else.
pub proof fn lemma_broadcast_all_scope(session: SessionView, frames: Seq<Seq<u8>>)
    ensures
        ({
            let after = session.broadcast_all(frames);
            after == (SessionView {
                replay_log: after.replay_log,
                next_replay_seq: after.next_replay_seq,
                subscribers: after.subscribers,
                outbox: after.outbox,
                ..session
            })
        }),
    decreases frames.len(),
{
    if frames.len() > 0 {
        lemma_broadcast_all_scope(session, frames.drop_last());
    }
}

/// What the history says of a frame.
pub fn history_entry_from_frame(frame: &Vec<u8>) -> (entry: Option<HistoryEntry>)
    ensures
        entry.deep_view() == history_entry(frame@),
{
    match Json::parse(frame) {
        Ok(document) => match document.get_str("method") {
            Some(method) => Some(
                HistoryEntry {
                    method: method.to_owned(),
                    params: match document.get("params") {
                        Some(params) => params.clone(),
                        None => Json::Null,
                    },
                },
            ),
            None => None,
        },
        Err(_) => None,
    }
}

/// What the history says of some frames.
pub fn collect_history(frames: &Vec<Vec<u8>>) -> (history: Vec<HistoryEntry>)
    ensures
        history.deep_view() == history_of(frames_view(frames@)),
{
    let ghost all = frames_view(frames@);
    let mut history: Vec<HistoryEntry> = Vec::new();
    let mut at: usize = 0;
    assert(all.take(0) =~= Seq::empty());
    assert(history.deep_view() =~= Seq::empty());
    while at < frames.len()
        invariant
            at <= frames@.len(),
            all == frames_view(frames@),
            history.deep_view() == history_of(all.take(at as int)),
        decreases frames@.len() - at,
    {
        assert(all.take(at + 1).drop_last() =~= all.take(at as int));
        let ghost before = history.deep_view();
        if let Some(entry) = history_entry_from_frame(&frames[at]) {
            history.push(entry);
            assert(history.deep_view() =~= before.push(entry.deep_view()));
        }
        at += 1;
    }
    assert(all.take(at as int) =~= all);
    history
}

/// The frames of some recorded entries as they are replayed.
pub fn replay_all(log: &Vec<ReplayEntry>) -> (frames: Vec<Vec<u8>>)
    ensures
        frames_view(frames@) == replay_frames(Some(log.deep_view())),
{
    let mut frames: Vec<Vec<u8>> = Vec::new();
    let mut at: usize = 0;
    while at < log.len()
        invariant
            at <= log@.len(),
            frames@.len() == at,
            forall|i: int|
                0 <= i < at ==> (#[trigger] frames@[i])@ == log@[i].deep_view().replayed(),
        decreases log@.len() - at,
    {
        frames.push(log[at].frame_for_replay());
        at += 1;
    }
    assert(frames_view(frames@) =~= replay_frames(Some(log.deep_view())));
    frames
}

impl SessionInner {
    /// Sends frames to one peer, where the peer takes them.
    pub fn send_frames_to(&mut self, peer_id: &str, frames: Vec<Vec<u8>>)
        ensures
            final(self)@ == old(self)@.send_frames_to(peer_id@, frames_view(frames@)),
    {
        if !self.reachable(peer_id) {
            return;
        }
        let ghost all = state::all_to(peer_id@, frames_view(frames@));
        let ghost before = self@;
        let mut at: usize = 0;
        assert(before.outbox =~= before.outbox + all.take(0));
        while at < frames.len()
            invariant
                at <= frames@.len(),
                all == state::all_to(peer_id@, frames_view(frames@)),
                self@ == (SessionView { outbox: before.outbox + all.take(at as int), ..before }),
            decreases frames@.len() - at,
        {
            let delivery = Delivery {
                peer_id: peer_id.to_owned(),
                message: OutMsg::Frame(copy_bytes(&frames[at])),
            };
            let ghost sent = self.outbox.deep_view();
            self.outbox.push(delivery);
            assert(self.outbox.deep_view() =~= sent.push(delivery.deep_view()));
            assert(before.outbox + all.take(at + 1) =~= (before.outbox + all.take(at as int)).push(
                all[at as int],
            ));
            at += 1;
        }
        assert(all.take(at as int) =~= all);
    }

    /// Tells a peer where the agent runs.
    pub fn send_session_context_to(&mut self, peer_id: &str)
        ensures
            final(self)@ == old(self)@.send_session_context_to(peer_id@),
    {
        let frame = amux::session_context(&self.session_id, &self.agent_cwd);
        self.send_to(peer_id, OutMsg::Frame(frame));
    }

    fn replay_snapshot(&self) -> (frames: Vec<Vec<u8>>)
        ensures
            frames_view(frames@) == replay_frames(self@.replay_log),
    {
        match &self.replay_log {
            Some(log) => replay_all(log),
            None => {
                let frames: Vec<Vec<u8>> = Vec::new();
                assert(frames_view(frames@) =~= Seq::empty());
                frames
            },
        }
    }

    /// Attaches a peer.
    pub fn attach(&mut self, subscriber: Subscriber) -> (result: Result<(), AttachError>)
        ensures
            final(self)@ == old(self)@.attach(subscriber@).0,
            result == old(self)@.attach(subscriber@).1,
    {
        if table::contains(&self.subscribers, &subscriber.peer_id) {
            return Err(AttachError::PeerIdInUse);
        }
        let snapshot = self.replay_snapshot();
        let frame = amux::peer_joined(
            &self.session_id,
            &subscriber.peer_id,
            text_ref(&subscriber.peer_name),
            text_ref(&subscriber.role),
        );
        self.broadcast(frame);
        let peer_id = subscriber.peer_id.clone();
        table::put(&mut self.subscribers, peer_id.clone(), subscriber);
        self.publish_session_list_metadata();
        self.send_session_context_to(&peer_id);
        self.send_frames_to(&peer_id, snapshot);
        Ok(())
    }

    /// Tells every peer that takes messages that its connection ends.
    pub fn close_all_subscribers(&mut self, code: u16, reason: &str)
        ensures
            final(self)@ == old(self)@.close_all_subscribers(code, reason@),
    {
        let ghost all = self@.subscribers;
        let ghost before = self@;
        let ghost message = OutMsgView::Close { code, reason: reason@ };
        let mut at: usize = 0;
        assert(all.take(0) =~= Seq::empty());
        assert(state::to_each(state::live(all.take(0)), message) =~= Seq::empty());
        assert(before.outbox =~= before.outbox + Seq::<DeliveryView>::empty());
        while at < self.subscribers.len()
            invariant
                at <= self.subscribers@.len(),
                all == self@.subscribers,
                all.len() == self.subscribers@.len(),
                message == (OutMsgView::Close { code, reason: reason@ }),
                self@ == (SessionView {
                    outbox: before.outbox + state::to_each(
                        state::live(all.take(at as int)),
                        message,
                    ),
                    ..before
                }),
            decreases self.subscribers@.len() - at,
        {
            assert(all.take(at + 1).drop_last() =~= all.take(at as int));
            assert(all[at as int] == self.subscribers@[at as int].deep_view());
            if self.subscribers[at].1.open {
                let delivery = Delivery {
                    peer_id: self.subscribers[at].0.clone(),
                    message: OutMsg::Close { code, reason: reason.to_owned() },
                };
                let ghost sent = self.outbox.deep_view();
                self.outbox.push(delivery);
                assert(self.outbox.deep_view() =~= sent.push(delivery.deep_view()));
                assert(state::to_each(state::live(all.take(at + 1)), message) =~= state::to_each(
                    state::live(all.take(at as int)),
                    message,
                ).push(delivery.deep_view()));
                assert(before.outbox + state::to_each(state::live(all.take(at + 1)), message)
                    =~= (before.outbox + state::to_each(state::live(all.take(at as int)), message)).push(
                delivery.deep_view()));
            }
            at += 1;
        }
        assert(all.take(at as int) =~= all);
    }

    fn queue_items_of(&self, peer_id: &str) -> (ids: Vec<String>)
        ensures
            ids.deep_view() == items_of(self@.queued_prompts, peer_id@),
    {
        let ghost all = self@.queued_prompts;
        let owner = peer_id.to_owned();
        let mut ids: Vec<String> = Vec::new();
        let mut at: usize = 0;
        assert(all.take(0) =~= Seq::empty());
        assert(ids.deep_view() =~= Seq::empty());
        while at < self.queued_prompts.len()
            invariant
                at <= self.queued_prompts@.len(),
                owner@ == peer_id@,
                all == self@.queued_prompts,
                ids.deep_view() == items_of(all.take(at as int), peer_id@),
            decreases self.queued_prompts@.len() - at,
        {
            assert(all.take(at + 1).drop_last() =~= all.take(at as int));
            assert(all[at as int] == self.queued_prompts@[at as int].deep_view());
            let ghost before = ids.deep_view();
            if self.queued_prompts[at].peer_id == owner {
                if let Some(id) = &self.queued_prompts[at].queue_item_id {
                    ids.push(id.clone());
                    assert(ids.deep_view() =~= before.push(id@));
                }
            }
            at += 1;
        }
        assert(all.take(at as int) =~= all);
        ids
    }

    /// Detaches a peer. Returns whether nobody is left.
    pub fn detach(&mut self, peer_id: &str) -> (empty: bool)
        ensures
            final(self)@ == old(self)@.detach(peer_id@).0,
            empty == old(self)@.detach(peer_id@).1,
    {
        let key = peer_id.to_owned();
        let removed = table::take(&mut self.subscribers, &key);
        if let Some(peer) = &removed {
            let frame = amux::peer_left(&self.session_id, peer_id);
            self.broadcast(frame);
            if let Some(acp_id) = self.acp_session_id() {
                let frame = session_update::client_disconnected(
                    &acp_id,
                    peer_id,
                    text_ref(&peer.peer_name),
                );
                self.broadcast(frame);
            }
            let ghost told = self@;
            let orphaned = self.queue_items_of(peer_id);
            let ghost frames = old(self)@.orphan_frames(peer_id@);
            let mut at: usize = 0;
            assert(frames.take(0) =~= Seq::empty());
            assert(frames.len() == orphaned@.len());
            while at < orphaned.len()
                invariant
                    at <= orphaned@.len(),
                    frames.len() == orphaned@.len(),
                    told.session_id == old(self)@.session_id,
                    forall|i: int|
                        0 <= i < frames.len() ==> frames[i] == json::json_text(
                            amux::queue_item_orphaned_frame(
                                told.session_id,
                                (#[trigger] orphaned@[i])@,
                                peer_id@,
                            ),
                        ),
                    self@ == told.broadcast_all(frames.take(at as int)),
                    self@.session_id == told.session_id,
                decreases orphaned@.len() - at,
            {
                assert(frames.take(at + 1).drop_last() =~= frames.take(at as int));
                let frame = amux::queue_item_orphaned(&self.session_id, &orphaned[at], peer_id);
                self.broadcast(frame);
                at += 1;
            }
            assert(frames.take(at as int) =~= frames);
        }
        let driving = match &self.driving_subscriber_peer_id {
            Some(driver) => *driver == key,
            None => false,
        };
        if driving {
            self.driving_subscriber_peer_id = None;
        }
        assert(self@.subscribers.len() == self.subscribers@.len());
        if self.subscribers.len() == 0 {
            self.clear_session_list_metadata();
            return true;
        }
        self.publish_session_list_metadata();
        false
    }

    /// The id that requests may name the session by.
    pub fn resolved_session_id(&self) -> (id: String)
        ensures
            id@ == self@.resolved_session_id(),
    {
        match self.acp_session_id() {
            Some(id) => id,
            None => self.session_id.clone(),
        }
    }

    /// The attached peers, as clients see them.
    pub fn connected_clients(&self) -> (clients: Vec<ConnectedClient>)
        ensures
            clients.deep_view() == clients_of(self@.subscribers),
    {
        let mut clients: Vec<ConnectedClient> = Vec::new();
        let mut at: usize = 0;
        while at < self.subscribers.len()
            invariant
                at <= self.subscribers@.len(),
                clients@.len() == at,
                forall|i: int|
                    0 <= i < at ==> (#[trigger] clients@[i]).deep_view() == (ConnectedClientView {
                        client_id: self.subscribers@[i].1.peer_id@,
                        name: self.subscribers@[i].1.peer_name.deep_view(),
                    }),
            decreases self.subscribers@.len() - at,
        {
            clients.push(
                ConnectedClient {
                    client_id: self.subscribers[at].1.peer_id.clone(),
                    name: self.subscribers[at].1.peer_name.clone(),
                },
            );
            at += 1;
        }
        assert(clients.deep_view() =~= clients_of(self@.subscribers));
        clients
    }

    /// The frames of the permission requests that wait.
    pub fn waiting_permission_frames(&self) -> (frames: Vec<Vec<u8>>)
        ensures
            frames_view(frames@) == permission_frames(self@.pending_permission_frames),
    {
        let mut frames: Vec<Vec<u8>> = Vec::new();
        let mut at: usize = 0;
        while at < self.pending_permission_frames.len()
            invariant
                at <= self.pending_permission_frames@.len(),
                frames@.len() == at,
                forall|i: int|
                    0 <= i < at ==> (#[trigger] frames@[i])@
                        == self.pending_permission_frames@[i].frame@,
            decreases self.pending_permission_frames@.len() - at,
        {
            frames.push(copy_bytes(&self.pending_permission_frames[at].frame));
            at += 1;
        }
        assert(frames_view(frames@) =~= permission_frames(self@.pending_permission_frames));
        frames
    }

    /// The recorded history.
    pub fn history_full(&self) -> (history: Vec<HistoryEntry>)
        ensures
            history.deep_view() == history_of(replay_frames(self@.replay_log)),
    {
        collect_history(&self.replay_snapshot())
    }

    /// The permission requests that wait, as history.
    pub fn history_pending_only(&self) -> (history: Vec<HistoryEntry>)
        ensures
            history.deep_view() == history_of(permission_frames(self@.pending_permission_frames)),
    {
        collect_history(&self.waiting_permission_frames())
    }

    /// Puts the permission requests that wait to a peer again.
    pub fn reissue_pending_permissions(&mut self, peer_id: &str)
        ensures
            final(self)@ == old(self)@.send_frames_to(
                peer_id@,
                permission_frames(old(self)@.pending_permission_frames),
            ),
    {
        let frames = self.waiting_permission_frames();
        self.send_frames_to(peer_id, frames);
    }

    /// Handles `session/attach`.
    pub fn handle_attach(&mut self, peer_id: &str, req: IncomingRequest)
        ensures
            final(self)@ == old(self)@.handle_attach(peer_id@, req@),
    {
        let params = AttachParams::from_request(&req.params);
        let policy = params.policy();
        let resolved = self.resolved_session_id();
        if asks_for_other(&params.session_id, &resolved, &self.session_id) {
            self.send_error_response(
                peer_id,
                req.id,
                ATTACH_ERR_NOT_FOUND,
                "session not found",
            );
            return;
        }
        let connected_clients = self.connected_clients();
        let history = match policy {
            HistoryPolicy::NoHistory => None,
            HistoryPolicy::PendingOnly => Some(self.history_pending_only()),
            _ => Some(self.history_full()),
        };
        let client_id = match params.client_id {
            Some(id) => id,
            None => peer_id.to_owned(),
        };
        let result = BaselineAttachResult {
            session_id: resolved,
            client_id,
            history_policy: policy,
            connected_clients,
            history,
        };
        self.send_result_response(peer_id, req.id, result.to_json());
        self.reissue_pending_permissions(peer_id);
    }

    /// Handles `session/detach`.
    pub fn handle_detach(&mut self, peer_id: &str, req: IncomingRequest)
        ensures
            final(self)@ == old(self)@.handle_detach(peer_id@, req@),
    {
        let params = DetachParams::from_request(&req.params);
        let resolved = self.resolved_session_id();
        if asks_for_other(&params.session_id, &resolved, &self.session_id) {
            self.send_error_response(
                peer_id,
                req.id,
                ATTACH_ERR_NOT_FOUND,
                "session not found",
            );
            return;
        }
        let result = DetachResult { session_id: resolved, status: "detached" };
        self.send_result_response(peer_id, req.id, result.to_json());
        self.send_to(
            peer_id,
            OutMsg::Close { code: 1000, reason: "client requested detach".to_owned() },
        );
    }
}

} // verus!

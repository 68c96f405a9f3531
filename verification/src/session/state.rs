//! The state of a session and the steps that the larger decisions are made of.
//!
//! [`SessionView`] is the model of a session. Each operation of
//! [`SessionInner`] has a spec function of the same name on the model, and its
//! contract says that it does exactly that.

use crate::assoc;
use crate::cli::{ClientToolPolicy, ReplayTurns};
use crate::json;
use crate::json::{Json, JsonView};
use crate::multiplex::subscriber::{
    copy_bytes, Delivery, DeliveryView, OutMsg, OutMsgView, Subscriber, SubscriberView,
};
use crate::protocol::amux::AmuxTurnId;
use crate::protocol::jsonrpc::{
    ErrorView, Id, IdView, IncomingResponse, JsonRpcError, JsonRpcVersion, ResponseView,
};
use crate::session::metadata;
use crate::session::metadata::{
    inject_replay_metadata, IndexView, MetadataView, SessionListAmuxMetadata,
    SessionListMetadataIndex,
};
use crate::table;
use vstd::prelude::*;

verus! {

/// How many prompts of kind [`QueuedPromptKind::Queue`] may wait.
pub const MAX_MUX_QUEUE_PROMPTS: usize = 6;

/// The first mux id. Zero stands for none.
pub const FIRST_MUX_ID: u64 = 1;

/// Another turn is in flight.
pub const SESSION_BUSY_ERROR_CODE: i64 = -32001;

/// A control does not fit the state of the turn.
pub const NO_ACTIVE_TURN_ERROR_CODE: i64 = -32002;

/// The queue takes no more prompts.
pub const QUEUE_FULL_ERROR_CODE: i64 = -32003;

/// Parameters are missing or of the wrong type.
pub const INVALID_PARAMS_ERROR_CODE: i64 = -32602;

/// A client tool is refused.
pub const CLIENT_TOOL_BLOCKED_ERROR_CODE: i64 = -32000;

/// The WebSocket close code for an agent that is gone.
pub const WS_CLOSE_AGENT_DEAD: u16 = 1011;

/// Cancels one request, in either direction.
pub const CANCEL_REQUEST_METHOD: &'static str = "$/cancel_request";

/// Cancels what a session is doing.
pub const SESSION_CANCEL_METHOD: &'static str = "session/cancel";

/// A counter after one step. Counters wrap.
pub open spec fn bump(n: u64) -> u64 {
    if n == u64::MAX {
        0
    } else {
        (n + 1) as u64
    }
}

/// A counter after one step. Counters wrap.
pub fn bumped(n: u64) -> (next: u64)
    ensures
        next == bump(n),
{
    if n == u64::MAX {
        0
    } else {
        n + 1
    }
}

/// The id that the agent sees for a mux id.
pub open spec fn wire_id(mux_id: u64) -> IdView {
    IdView::Number(mux_id as i64)
}

/// One recorded frame.
#[derive(Debug)]
pub struct ReplayEntry {
    pub frame: Vec<u8>,
    pub recorded_at: String,
    pub seq: u64,
}

/// The model of [`ReplayEntry`].
#[verifier::ext_equal]
pub struct ReplayEntryView {
    pub frame: Seq<u8>,
    pub recorded_at: Seq<char>,
    pub seq: u64,
}

impl DeepView for ReplayEntry {
    type V = ReplayEntryView;

    open spec fn deep_view(&self) -> ReplayEntryView {
        ReplayEntryView { frame: self.frame@, recorded_at: self.recorded_at@, seq: self.seq }
    }
}

impl ReplayEntryView {
    /// The frame as it is replayed.
    pub open spec fn replayed(self) -> Seq<u8> {
        metadata::replay_frame(self.frame, self.recorded_at, self.seq)
    }
}

impl ReplayEntry {
    /// The record of a frame.
    pub fn new(seq: u64, frame: Vec<u8>, recorded_at: String) -> (entry: ReplayEntry)
        ensures
            entry.deep_view() == (ReplayEntryView {
                frame: frame@,
                recorded_at: recorded_at@,
                seq,
            }),
    {
        ReplayEntry { frame, recorded_at, seq }
    }

    /// The frame as it is replayed.
    pub fn frame_for_replay(&self) -> (frame: Vec<u8>)
        ensures
            frame@ == self.deep_view().replayed(),
    {
        inject_replay_metadata(&self.frame, &self.recorded_at, self.seq)
    }
}

impl Clone for ReplayEntry {
    fn clone(&self) -> (copy: Self)
        ensures
            copy.deep_view() == self.deep_view(),
    {
        ReplayEntry {
            frame: copy_bytes(&self.frame),
            recorded_at: self.recorded_at.clone(),
            seq: self.seq,
        }
    }
}

/// What loading another session did to the replay log.
#[derive(Debug)]
pub struct ReplayResetSnapshot {
    pub loaded_session_id: String,
    pub replay_generation: u64,
    pub dropped_frame_count: usize,
    pub retained_frame_count: usize,
}

/// The model of [`ReplayResetSnapshot`].
#[verifier::ext_equal]
pub struct ReplayResetView {
    pub loaded_session_id: Seq<char>,
    pub replay_generation: u64,
    pub dropped_frame_count: nat,
    pub retained_frame_count: nat,
}

impl DeepView for ReplayResetSnapshot {
    type V = ReplayResetView;

    open spec fn deep_view(&self) -> ReplayResetView {
        ReplayResetView {
            loaded_session_id: self.loaded_session_id@,
            replay_generation: self.replay_generation,
            dropped_frame_count: self.dropped_frame_count as nat,
            retained_frame_count: self.retained_frame_count as nat,
        }
    }
}

impl Clone for ReplayResetSnapshot {
    fn clone(&self) -> (copy: Self)
        ensures
            copy.deep_view() == self.deep_view(),
    {
        ReplayResetSnapshot {
            loaded_session_id: self.loaded_session_id.clone(),
            replay_generation: self.replay_generation,
            dropped_frame_count: self.dropped_frame_count,
            retained_frame_count: self.retained_frame_count,
        }
    }
}

/// Why a peer could not attach.
#[derive(Debug, Clone, Copy, PartialEq, Eq, Structural)]
pub enum AttachError {
    PeerIdInUse,
}

/// The requests whose answers the session remembers.
#[derive(Debug)]
pub enum HandshakeKind {
    Initialize,
    SessionNew,
    /// A switch to a session that the client names. `replay_start_len` is how
    /// long the replay log was when the client asked.
    SessionLoad { loaded_session_id: String, replay_start_len: usize },
}

/// The model of [`HandshakeKind`].
#[verifier::ext_equal]
pub enum HandshakeView {
    Initialize,
    SessionNew,
    SessionLoad { loaded_session_id: Seq<char>, replay_start_len: nat },
}

impl DeepView for HandshakeKind {
    type V = HandshakeView;

    open spec fn deep_view(&self) -> HandshakeView {
        match *self {
            HandshakeKind::Initialize => HandshakeView::Initialize,
            HandshakeKind::SessionNew => HandshakeView::SessionNew,
            HandshakeKind::SessionLoad { loaded_session_id, replay_start_len } =>
                HandshakeView::SessionLoad {
                loaded_session_id: loaded_session_id@,
                replay_start_len: replay_start_len as nat,
            },
        }
    }
}

/// A request that was forwarded to the agent and not answered yet.
#[derive(Debug)]
pub struct PendingRequest {
    pub peer_id: String,
    pub original_id: Id,
    pub handshake: Option<HandshakeKind>,
    pub decorate_session_list: bool,
    pub deliver_response: bool,
    pub queue_item_id: Option<String>,
}

/// The model of [`PendingRequest`].
#[verifier::ext_equal]
pub struct PendingView {
    pub peer_id: Seq<char>,
    pub original_id: IdView,
    pub handshake: Option<HandshakeView>,
    pub decorate_session_list: bool,
    pub deliver_response: bool,
    pub queue_item_id: Option<Seq<char>>,
}

impl DeepView for PendingRequest {
    type V = PendingView;

    open spec fn deep_view(&self) -> PendingView {
        PendingView {
            peer_id: self.peer_id@,
            original_id: self.original_id@,
            handshake: self.handshake.deep_view(),
            decorate_session_list: self.decorate_session_list,
            deliver_response: self.deliver_response,
            queue_item_id: self.queue_item_id.deep_view(),
        }
    }
}

/// Whether a request of the agent still waits for its one reply.
#[derive(Debug, Clone, Copy, PartialEq, Eq, Structural)]
pub enum AgentReqState {
    InFlight,
    Consumed,
}

impl DeepView for AgentReqState {
    type V = AgentReqState;

    open spec fn deep_view(&self) -> AgentReqState {
        *self
    }
}

/// Why a prompt waits.
#[derive(Debug, Clone, Copy, PartialEq, Eq, Structural)]
pub enum QueuedPromptKind {
    Prompt,
    Queue,
    HardSteer { supersedes_turn_id: AmuxTurnId },
}

/// A prompt that the mux submits when no turn is active.
#[derive(Debug)]
pub struct QueuedPrompt {
    pub queue_item_id: Option<String>,
    pub peer_id: String,
    pub session_id: String,
    pub prompt_text: String,
    pub kind: QueuedPromptKind,
}

/// The model of [`QueuedPrompt`].
#[verifier::ext_equal]
pub struct QueuedPromptView {
    pub queue_item_id: Option<Seq<char>>,
    pub peer_id: Seq<char>,
    pub session_id: Seq<char>,
    pub prompt_text: Seq<char>,
    pub kind: QueuedPromptKind,
}

impl DeepView for QueuedPrompt {
    type V = QueuedPromptView;

    open spec fn deep_view(&self) -> QueuedPromptView {
        QueuedPromptView {
            queue_item_id: self.queue_item_id.deep_view(),
            peer_id: self.peer_id@,
            session_id: self.session_id@,
            prompt_text: self.prompt_text@,
            kind: self.kind,
        }
    }
}

/// A permission request of the agent that waits for an answer.
#[derive(Debug)]
pub struct PermissionFrame {
    pub id: Id,
    pub frame: Vec<u8>,
}

/// The model of [`PermissionFrame`].
#[verifier::ext_equal]
pub struct PermissionView {
    pub id: IdView,
    pub frame: Seq<u8>,
}

impl DeepView for PermissionFrame {
    type V = PermissionView;

    open spec fn deep_view(&self) -> PermissionView {
        PermissionView { id: self.id@, frame: self.frame@ }
    }
}

/// The state of a session.
#[derive(Debug)]
pub struct SessionInner {
    pub session_id: String,
    pub agent_cwd: String,
    /// The index of live sessions, which all sessions share. It is lent to a
    /// session for as long as the session handles an event.
    pub session_list_index: SessionListMetadataIndex,
    /// The session id that the agent uses.
    pub canonical_session_id: Option<String>,
    pub subscribers: Vec<(String, Subscriber)>,
    pub next_mux_id: u64,
    /// What was forwarded to the agent, by mux id.
    pub pending: Vec<(u64, PendingRequest)>,
    pub initialize_cache: Option<Json>,
    pub session_new_cache: Option<Json>,
    /// The peer that last asked the session something.
    pub driving_subscriber_peer_id: Option<String>,
    /// The mux id of the `session/prompt` in flight.
    pub active_turn_mux_id: Option<u64>,
    pub active_amux_turn_id: Option<AmuxTurnId>,
    pub active_turn_session_id: Option<String>,
    pub active_turn_prompt_text: Option<String>,
    /// What the mux submits once no turn is active.
    pub queued_prompts: Vec<QueuedPrompt>,
    pub next_queue_item_id: u64,
    pub next_amux_turn_id: u64,
    /// Every frame that went to all peers, where frames are kept at all.
    pub replay_log: Option<Vec<ReplayEntry>>,
    pub next_replay_seq: u64,
    /// How often another session was loaded.
    pub replay_generation: u64,
    pub last_replay_reset: Option<ReplayResetSnapshot>,
    /// Whether requests to the agent carry who sent them.
    pub meta_propagate: bool,
    pub client_tool_policy: ClientToolPolicy,
    /// Every request of the agent that was passed on, by its id. An id stays
    /// when its reply has come, so that later replies are known as such.
    pub agent_pending: Vec<(Id, AgentReqState)>,
    pub pending_permission_frames: Vec<PermissionFrame>,
    /// When the event that is being handled was taken up.
    pub clock: String,
    /// What is to be sent, in order.
    pub outbox: Vec<Delivery>,
}

/// The model of [`SessionInner`].
#[verifier::ext_equal]
pub struct SessionView {
    pub session_id: Seq<char>,
    pub agent_cwd: Seq<char>,
    pub index: IndexView,
    pub canonical_session_id: Option<Seq<char>>,
    pub subscribers: Seq<(Seq<char>, SubscriberView)>,
    pub next_mux_id: u64,
    pub pending: Seq<(u64, PendingView)>,
    pub initialize_cache: Option<JsonView>,
    pub session_new_cache: Option<JsonView>,
    pub driving_subscriber_peer_id: Option<Seq<char>>,
    pub active_turn_mux_id: Option<u64>,
    pub active_amux_turn_id: Option<AmuxTurnId>,
    pub active_turn_session_id: Option<Seq<char>>,
    pub active_turn_prompt_text: Option<Seq<char>>,
    pub queued_prompts: Seq<QueuedPromptView>,
    pub next_queue_item_id: u64,
    pub next_amux_turn_id: u64,
    pub replay_log: Option<Seq<ReplayEntryView>>,
    pub next_replay_seq: u64,
    pub replay_generation: u64,
    pub last_replay_reset: Option<ReplayResetView>,
    pub meta_propagate: bool,
    pub client_tool_policy: ClientToolPolicy,
    pub agent_pending: Seq<(IdView, AgentReqState)>,
    pub pending_permission_frames: Seq<PermissionView>,
    pub clock: Seq<char>,
    pub outbox: Seq<DeliveryView>,
}

impl View for SessionInner {
    type V = SessionView;

    open spec fn view(&self) -> SessionView {
        SessionView {
            session_id: self.session_id@,
            agent_cwd: self.agent_cwd@,
            index: self.session_list_index@,
            canonical_session_id: self.canonical_session_id.deep_view(),
            subscribers: self.subscribers.deep_view(),
            next_mux_id: self.next_mux_id,
            pending: self.pending.deep_view(),
            initialize_cache: self.initialize_cache.deep_view(),
            session_new_cache: self.session_new_cache.deep_view(),
            driving_subscriber_peer_id: self.driving_subscriber_peer_id.deep_view(),
            active_turn_mux_id: self.active_turn_mux_id,
            active_amux_turn_id: self.active_amux_turn_id,
            active_turn_session_id: self.active_turn_session_id.deep_view(),
            active_turn_prompt_text: self.active_turn_prompt_text.deep_view(),
            queued_prompts: self.queued_prompts.deep_view(),
            next_queue_item_id: self.next_queue_item_id,
            next_amux_turn_id: self.next_amux_turn_id,
            replay_log: self.replay_log.deep_view(),
            next_replay_seq: self.next_replay_seq,
            replay_generation: self.replay_generation,
            last_replay_reset: self.last_replay_reset.deep_view(),
            meta_propagate: self.meta_propagate,
            client_tool_policy: self.client_tool_policy,
            agent_pending: self.agent_pending.deep_view(),
            pending_permission_frames: self.pending_permission_frames.deep_view(),
            clock: self.clock@,
            outbox: self.outbox.deep_view(),
        }
    }
}

/// The peers whose channel takes messages.
pub open spec fn live(subscribers: Seq<(Seq<char>, SubscriberView)>) -> Seq<
    (Seq<char>, SubscriberView),
>
    decreases subscribers.len(),
{
    if subscribers.len() == 0 {
        Seq::empty()
    } else if subscribers.last().1.open {
        live(subscribers.drop_last()).push(subscribers.last())
    } else {
        live(subscribers.drop_last())
    }
}

/// The same message to each of the peers.
pub open spec fn to_each(
    subscribers: Seq<(Seq<char>, SubscriberView)>,
    message: OutMsgView,
) -> Seq<DeliveryView> {
    subscribers.map_values(
        |peer: (Seq<char>, SubscriberView)| DeliveryView { peer_id: peer.0, message },
    )
}

/// The messages, in order, to one peer.
pub open spec fn all_to(peer_id: Seq<char>, frames: Seq<Seq<u8>>) -> Seq<DeliveryView> {
    frames.map_values(
        |frame: Seq<u8>| DeliveryView { peer_id, message: OutMsgView::Frame(frame) },
    )
}

impl SessionView {
    /// A session that nobody has attached to.
    pub open spec fn new(
        session_id: Seq<char>,
        agent_cwd: Seq<char>,
        replay_policy: ReplayTurns,
        meta_propagate: bool,
        client_tool_policy: ClientToolPolicy,
        index: IndexView,
    ) -> SessionView {
        SessionView {
            session_id,
            agent_cwd,
            index,
            canonical_session_id: None,
            subscribers: Seq::empty(),
            next_mux_id: FIRST_MUX_ID,
            pending: Seq::empty(),
            initialize_cache: None,
            session_new_cache: None,
            driving_subscriber_peer_id: None,
            active_turn_mux_id: None,
            active_amux_turn_id: None,
            active_turn_session_id: None,
            active_turn_prompt_text: None,
            queued_prompts: Seq::empty(),
            next_queue_item_id: 1,
            next_amux_turn_id: 1,
            replay_log: match replay_policy {
                ReplayTurns::Disabled => None,
                _ => Some(Seq::empty()),
            },
            next_replay_seq: 1,
            replay_generation: 0,
            last_replay_reset: None,
            meta_propagate,
            client_tool_policy,
            agent_pending: Seq::empty(),
            pending_permission_frames: Seq::empty(),
            clock: Seq::empty(),
            outbox: Seq::empty(),
        }
    }

    /// What the session shows of itself in the index of live sessions.
    pub open spec fn publish_session_list_metadata(self) -> SessionView {
        match self.canonical_session_id {
            None => self,
            Some(acp_session_id) => if self.subscribers.len() == 0 {
                SessionView {
                    index: self.index.remove_if_proxy(acp_session_id, self.session_id),
                    ..self
                }
            } else {
                SessionView {
                    index: self.index.upsert(
                        acp_session_id,
                        MetadataView {
                            proxy_session_id: self.session_id,
                            subscriber_count: self.subscribers.len(),
                            driving_subscriber: self.driving_subscriber_peer_id,
                        },
                    ),
                    ..self
                }
            },
        }
    }

    /// The session no longer shows in the index.
    pub open spec fn clear_session_list_metadata(self) -> SessionView {
        match self.canonical_session_id {
            None => self,
            Some(acp_session_id) => SessionView {
                index: self.index.remove_if_proxy(acp_session_id, self.session_id),
                ..self
            },
        }
    }

    /// The session goes by another session id of the agent.
    pub open spec fn set_canonical_session_id(self, acp_session_id: Seq<char>) -> SessionView {
        match self.canonical_session_id {
            Some(previous) => if previous == acp_session_id {
                self.publish_session_list_metadata()
            } else {
                SessionView {
                    canonical_session_id: Some(acp_session_id),
                    index: self.index.remove_if_proxy(previous, self.session_id),
                    ..self
                }.publish_session_list_metadata()
            },
            None => SessionView {
                canonical_session_id: Some(acp_session_id),
                ..self
            }.publish_session_list_metadata(),
        }
    }

    /// The session id that the agent uses, as far as it is known.
    pub open spec fn acp_session_id(self) -> Option<Seq<char>> {
        match self.canonical_session_id {
            Some(id) => Some(id),
            None => match self.session_new_cache {
                Some(result) => result.get_str("sessionId"@),
                None => None,
            },
        }
    }

    /// The name and role of a peer.
    pub open spec fn peer_labels(self, peer_id: Seq<char>) -> (
        Option<Seq<char>>,
        Option<Seq<char>>,
    ) {
        match assoc::lookup(self.subscribers, peer_id) {
            Some(subscriber) => (subscriber.peer_name, subscriber.role),
            None => (None, None),
        }
    }

    /// Whether a message to the peer would be taken.
    pub open spec fn reachable(self, peer_id: Seq<char>) -> bool {
        assoc::lookup(self.subscribers, peer_id) matches Some(subscriber) && subscriber.open
    }

    /// A message to one peer, where the peer takes it.
    pub open spec fn send_to(self, peer_id: Seq<char>, message: OutMsgView) -> SessionView {
        if self.reachable(peer_id) {
            SessionView {
                outbox: self.outbox.push(DeliveryView { peer_id, message }),
                ..self
            }
        } else {
            self
        }
    }

    /// Frames to one peer, where the peer takes them.
    pub open spec fn send_frames_to(self, peer_id: Seq<char>, frames: Seq<Seq<u8>>) -> SessionView {
        if self.reachable(peer_id) {
            SessionView { outbox: self.outbox + all_to(peer_id, frames), ..self }
        } else {
            self
        }
    }

    /// A response to one peer.
    pub open spec fn respond(self, peer_id: Seq<char>, response: ResponseView) -> SessionView {
        self.send_to(peer_id, OutMsgView::Frame(json::json_text(response.json())))
    }

    /// An error response to one peer.
    pub open spec fn send_error_response(
        self,
        peer_id: Seq<char>,
        original_id: IdView,
        code: i64,
        message: Seq<char>,
    ) -> SessionView {
        self.respond(
            peer_id,
            ResponseView {
                id: original_id,
                result: None,
                error: Some(ErrorView { code, message, data: None }),
            },
        )
    }

    /// A successful response to one peer.
    pub open spec fn send_result_response(
        self,
        peer_id: Seq<char>,
        original_id: IdView,
        result: JsonView,
    ) -> SessionView {
        self.respond(peer_id, ResponseView { id: original_id, result: Some(result), error: None })
    }

    /// A frame enters the replay log, where there is one.
    pub open spec fn record(self, frame: Seq<u8>) -> SessionView {
        match self.replay_log {
            Some(log) => SessionView {
                replay_log: Some(
                    log.push(
                        ReplayEntryView {
                            frame,
                            recorded_at: self.clock,
                            seq: self.next_replay_seq,
                        },
                    ),
                ),
                next_replay_seq: bump(self.next_replay_seq),
                ..self
            },
            None => self,
        }
    }

    /// A frame to every peer whose channel takes messages. The others are
    /// dropped. Nothing is recorded.
    pub open spec fn fan_out(self, frame: Seq<u8>) -> SessionView {
        SessionView {
            subscribers: live(self.subscribers),
            outbox: self.outbox + to_each(live(self.subscribers), OutMsgView::Frame(frame)),
            ..self
        }
    }

    /// A frame to every peer, and into the replay log.
    pub open spec fn broadcast(self, frame: Seq<u8>) -> SessionView {
        self.record(frame).fan_out(frame)
    }

    /// Whether a broadcast now would lose the last peer.
    pub open spec fn drains(self) -> bool {
        self.subscribers.len() > 0 && live(self.subscribers).len() == 0
    }

    /// A peer asked the session something.
    pub open spec fn note_driving_subscriber(self, peer_id: Seq<char>) -> SessionView {
        if assoc::holds(self.subscribers, peer_id) && self.driving_subscriber_peer_id != Some(
            peer_id,
        ) {
            SessionView {
                driving_subscriber_peer_id: Some(peer_id),
                ..self
            }.publish_session_list_metadata()
        } else {
            self
        }
    }
}

impl SessionInner {
    /// A session that nobody has attached to. A bound on the replayed turns is
    /// accepted, and nothing is evicted for it.
    pub fn new(
        session_id: String,
        agent_cwd: String,
        replay_policy: ReplayTurns,
        meta_propagate: bool,
        client_tool_policy: ClientToolPolicy,
        session_list_index: SessionListMetadataIndex,
    ) -> (session: SessionInner)
        ensures
            session@ == SessionView::new(
                session_id@,
                agent_cwd@,
                replay_policy,
                meta_propagate,
                client_tool_policy,
                session_list_index@,
            ),
    {
        let replay_log = match replay_policy {
            ReplayTurns::Disabled => None,
            ReplayTurns::Unbounded => Some(Vec::new()),
            ReplayTurns::Bounded(_) => Some(Vec::new()),
        };
        let session = SessionInner {
            session_id,
            agent_cwd,
            session_list_index,
            canonical_session_id: None,
            subscribers: Vec::new(),
            next_mux_id: FIRST_MUX_ID,
            pending: Vec::new(),
            initialize_cache: None,
            session_new_cache: None,
            driving_subscriber_peer_id: None,
            active_turn_mux_id: None,
            active_amux_turn_id: None,
            active_turn_session_id: None,
            active_turn_prompt_text: None,
            queued_prompts: Vec::new(),
            next_queue_item_id: 1,
            next_amux_turn_id: 1,
            replay_log,
            next_replay_seq: 1,
            replay_generation: 0,
            last_replay_reset: None,
            meta_propagate,
            client_tool_policy,
            agent_pending: Vec::new(),
            pending_permission_frames: Vec::new(),
            clock: String::new(),
            outbox: Vec::new(),
        };
        proof {
            if let Some(log) = session@.replay_log {
                assert(log =~= Seq::<ReplayEntryView>::empty());
            }
        }
        session
    }

    /// Shows the session in the index of live sessions, or takes it out where
    /// nobody is attached.
    pub fn publish_session_list_metadata(&mut self)
        ensures
            final(self)@ == old(self)@.publish_session_list_metadata(),
    {
        if let Some(acp_session_id) = &self.canonical_session_id {
            if self.subscribers.len() == 0 {
                self.session_list_index.remove_if_proxy(acp_session_id, &self.session_id);
            } else {
                self.session_list_index.upsert(
                    acp_session_id,
                    SessionListAmuxMetadata {
                        proxy_session_id: self.session_id.clone(),
                        subscriber_count: self.subscribers.len(),
                        driving_subscriber: self.driving_subscriber_peer_id.clone(),
                    },
                );
            }
        }
    }

    /// Takes the session out of the index.
    pub fn clear_session_list_metadata(&mut self)
        ensures
            final(self)@ == old(self)@.clear_session_list_metadata(),
    {
        if let Some(acp_session_id) = &self.canonical_session_id {
            self.session_list_index.remove_if_proxy(acp_session_id, &self.session_id);
        }
    }

    /// Makes the session go by another session id of the agent.
    pub fn set_canonical_session_id(&mut self, acp_session_id: &str)
        ensures
            final(self)@ == old(self)@.set_canonical_session_id(acp_session_id@),
    {
        let wanted = acp_session_id.to_owned();
        if let Some(previous) = &self.canonical_session_id {
            if *previous == wanted {
                self.publish_session_list_metadata();
                return;
            }
            self.session_list_index.remove_if_proxy(previous, &self.session_id);
        }
        self.canonical_session_id = Some(wanted);
        self.publish_session_list_metadata();
    }

    /// The session id that the agent uses, as far as it is known.
    pub fn acp_session_id(&self) -> (id: Option<String>)
        ensures
            id.deep_view() == self@.acp_session_id(),
    {
        match &self.canonical_session_id {
            Some(id) => Some(id.clone()),
            None => match &self.session_new_cache {
                Some(result) => match result.get_str("sessionId") {
                    Some(id) => Some(id.to_owned()),
                    None => None,
                },
                None => None,
            },
        }
    }

    /// The name and role of a peer.
    pub fn peer_labels(&self, peer_id: &str) -> (labels: (Option<String>, Option<String>))
        ensures
            (labels.0.deep_view(), labels.1.deep_view()) == self@.peer_labels(peer_id@),
    {
        match table::get(&self.subscribers, &peer_id.to_owned()) {
            Some(subscriber) => (subscriber.peer_name.clone(), subscriber.role.clone()),
            None => (None, None),
        }
    }

    /// Whether a message to the peer would be taken.
    pub fn reachable(&self, peer_id: &str) -> (yes: bool)
        ensures
            yes == self@.reachable(peer_id@),
    {
        match table::get(&self.subscribers, &peer_id.to_owned()) {
            Some(subscriber) => subscriber.open,
            None => false,
        }
    }

    /// Sends a message to one peer, where the peer takes it.
    pub fn send_to(&mut self, peer_id: &str, message: OutMsg)
        ensures
            final(self)@ == old(self)@.send_to(peer_id@, message@),
    {
        if self.reachable(peer_id) {
            let delivery = Delivery { peer_id: peer_id.to_owned(), message };
            self.outbox.push(delivery);
            assert(self.outbox.deep_view() =~= old(self).outbox.deep_view().push(
                delivery.deep_view(),
            ));
        }
    }

    /// Sends a response to one peer.
    pub fn respond(&mut self, peer_id: &str, response: IncomingResponse)
        ensures
            final(self)@ == old(self)@.respond(peer_id@, response@),
    {
        self.send_to(peer_id, OutMsg::Frame(response.to_json().to_vec()));
    }

    /// Sends an error response to one peer.
    pub fn send_error_response(&mut self, peer_id: &str, original_id: Id, code: i64, message: &str)
        ensures
            final(self)@ == old(self)@.send_error_response(peer_id@, original_id@, code, message@),
    {
        self.respond(
            peer_id,
            IncomingResponse {
                jsonrpc: JsonRpcVersion,
                id: original_id,
                result: None,
                error: Some(JsonRpcError { code, message: message.to_owned(), data: None }),
            },
        );
    }

    /// Sends a successful response to one peer.
    pub fn send_result_response(&mut self, peer_id: &str, original_id: Id, result: Json)
        ensures
            final(self)@ == old(self)@.send_result_response(peer_id@, original_id@, result@),
    {
        self.respond(
            peer_id,
            IncomingResponse {
                jsonrpc: JsonRpcVersion,
                id: original_id,
                result: Some(result),
                error: None,
            },
        );
    }

    /// Answers a peer with a result that the session remembers.
    pub fn send_cached_response(&mut self, peer_id: &str, original_id: Id, cached: Json)
        ensures
            final(self)@ == old(self)@.send_result_response(peer_id@, original_id@, cached@),
    {
        self.send_result_response(peer_id, original_id, cached);
    }

    /// Puts a frame into the replay log, where there is one.
    pub fn record(&mut self, frame: &Vec<u8>)
        ensures
            final(self)@ == old(self)@.record(frame@),
    {
        if let Some(log) = &self.replay_log {
            let ghost before = log.deep_view();
            let mut log = self.replay_log.take().unwrap();
            let entry = ReplayEntry::new(
                self.next_replay_seq,
                copy_bytes(frame),
                self.clock.clone(),
            );
            log.push(entry);
            assert(log.deep_view() =~= before.push(entry.deep_view()));
            self.replay_log = Some(log);
            self.next_replay_seq = bumped(self.next_replay_seq);
        }
    }

    /// Sends a frame to every peer whose channel takes messages, and drops the
    /// others.
    pub fn fan_out(&mut self, frame: &Vec<u8>)
        ensures
            final(self)@ == old(self)@.fan_out(frame@),
    {
        let mut kept: Vec<(String, Subscriber)> = Vec::new();
        let mut peers: Vec<(String, Subscriber)> = Vec::new();
        std::mem::swap(&mut peers, &mut self.subscribers);
        let ghost all = peers.deep_view();
        let ghost before = self@;
        let count: usize = peers.len();
        let mut done: usize = 0;
        assert(all.take(0) =~= Seq::empty());
        assert(kept.deep_view() =~= Seq::empty());
        assert(to_each(live(all.take(0)), OutMsgView::Frame(frame@)) =~= Seq::empty());
        assert(self@.outbox =~= before.outbox + Seq::empty());
        while done < count
            invariant
                done <= count,
                all.len() == count,
                peers.deep_view() == all.skip(done as int),
                kept.deep_view() == live(all.take(done as int)),
                self@ == (SessionView {
                    outbox: before.outbox + to_each(
                        live(all.take(done as int)),
                        OutMsgView::Frame(frame@),
                    ),
                    ..before
                }),
            decreases count - done,
        {
            let ghost rest = peers.deep_view();
            let ghost waiting = peers@;
            assert(rest.len() == peers@.len());
            let (peer_id, subscriber) = peers.remove(0);
            assert forall|i: int| 0 <= i < peers@.len() implies peers.deep_view()[i] == all.skip(
                done + 1,
            )[i] by {
                assert(peers@[i] == waiting[i + 1]);
                assert(rest[i + 1] == all.skip(done as int)[i + 1]);
            }
            assert(peers.deep_view() =~= all.skip(done + 1));
            assert(rest[0] == (peer_id@, subscriber@));
            assert(rest[0] == all[done as int]);
            assert(all.take(done + 1).drop_last() =~= all.take(done as int));
            if subscriber.open {
                let delivery = Delivery {
                    peer_id: peer_id.clone(),
                    message: OutMsg::Frame(copy_bytes(frame)),
                };
                let ghost sent = self.outbox.deep_view();
                let ghost kept_before = kept.deep_view();
                self.outbox.push(delivery);
                kept.push((peer_id, subscriber));
                assert(self.outbox.deep_view() =~= sent.push(delivery.deep_view()));
                assert(kept.deep_view() =~= kept_before.push((peer_id@, subscriber@)));
                assert(to_each(live(all.take(done + 1)), OutMsgView::Frame(frame@)) =~= to_each(
                    live(all.take(done as int)),
                    OutMsgView::Frame(frame@),
                ).push(delivery.deep_view()));
            }
            done += 1;
        }
        assert(all.take(count as int) =~= all);
        self.subscribers = kept;
    }

    /// Sends a frame to every peer and records it. Returns whether that lost the
    /// last peer.
    pub fn broadcast(&mut self, frame: Vec<u8>) -> (drained: bool)
        ensures
            final(self)@ == old(self)@.broadcast(frame@),
            drained == old(self)@.drains(),
    {
        let before: usize = self.subscribers.len();
        self.record(&frame);
        self.fan_out(&frame);
        assert(self@.subscribers.len() == self.subscribers@.len());
        before > 0 && self.subscribers.len() == 0
    }

    /// Notes that a peer asked the session something.
    pub fn note_driving_subscriber(&mut self, peer_id: &str)
        ensures
            final(self)@ == old(self)@.note_driving_subscriber(peer_id@),
    {
        let key = peer_id.to_owned();
        if !table::contains(&self.subscribers, &key) {
            return;
        }
        let already = match &self.driving_subscriber_peer_id {
            Some(driver) => *driver == key,
            None => false,
        };
        if !already {
            self.driving_subscriber_peer_id = Some(key);
            self.publish_session_list_metadata();
        }
    }
}

} // verus!

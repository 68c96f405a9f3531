//! What the session does with a line of the agent: send it to everybody, put
//! a question to everybody, or route an answer to the one who asked.

use crate::assoc;
use crate::cli::ClientToolMode;
use crate::json;
use crate::json::{Json, JsonView};
use crate::multiplex::subscriber::copy_bytes;
use crate::protocol::amux;
use crate::protocol::jsonrpc::{
    ErrorView, Id, IdView, Incoming, IncomingNotification, IncomingRequest, IncomingResponse,
    IncomingView, JsonRpcError, JsonRpcVersion, NotificationView, RequestView, ResponseView,
};
use crate::session::attach;
use crate::session::inbound;
use crate::session::inbound::parse_cancel_request_id;
use crate::session::state::{
    AgentReqState, HandshakeKind, HandshakeView, PendingView, PermissionFrame, PermissionView,
    SessionInner, SessionView, CANCEL_REQUEST_METHOD, CLIENT_TOOL_BLOCKED_ERROR_CODE,
};
use crate::session::turn;
use crate::session::turn::read_stop_reason;
use crate::table;
use crate::text::same_text;
use vstd::prelude::*;

verus! {

/// Who resolves the requests that are left when a turn ends.
pub const RESOLVED_BY_TURN_END: &'static str = "mux:turn-ended";

/// The request that asks for a permission.
pub const METHOD_REQUEST_PERMISSION: &'static str = "session/request_permission";

/// What is left to do after a line of the agent.
#[derive(Debug)]
pub struct AgentLineAction {
    /// The line reached nobody any more.
    pub session_empty: bool,
    pub writes_to_agent: Vec<Vec<u8>>,
}

/// The model of [`AgentLineAction`].
#[verifier::ext_equal]
pub struct ActionView {
    pub session_empty: bool,
    pub writes_to_agent: Seq<Seq<u8>>,
}

impl View for AgentLineAction {
    type V = ActionView;

    open spec fn view(&self) -> ActionView {
        ActionView {
            session_empty: self.session_empty,
            writes_to_agent: attach::frames_view(self.writes_to_agent@),
        }
    }
}

impl ActionView {
    /// Nothing but, perhaps, that nobody is left.
    pub open spec fn empty(session_empty: bool) -> ActionView {
        ActionView { session_empty, writes_to_agent: Seq::empty() }
    }

    /// At most one frame for the agent.
    pub open spec fn write(session_empty: bool, write: Option<Seq<u8>>) -> ActionView {
        ActionView {
            session_empty,
            writes_to_agent: match write {
                Some(frame) => seq![frame],
                None => Seq::empty(),
            },
        }
    }
}

impl AgentLineAction {
    /// Nothing.
    pub fn none() -> (action: AgentLineAction)
        ensures
            action@ == ActionView::empty(false),
    {
        AgentLineAction::session_empty(false)
    }

    /// Nothing but, perhaps, that nobody is left.
    pub fn session_empty(session_empty: bool) -> (action: AgentLineAction)
        ensures
            action@ == ActionView::empty(session_empty),
    {
        let action = AgentLineAction { session_empty, writes_to_agent: Vec::new() };
        assert(action@.writes_to_agent =~= Seq::empty());
        action
    }

    /// One frame for the agent.
    pub fn write_to_agent(write_to_agent: Vec<u8>) -> (action: AgentLineAction)
        ensures
            action@ == ActionView::write(false, Some(write_to_agent@)),
    {
        let mut writes: Vec<Vec<u8>> = Vec::new();
        writes.push(write_to_agent);
        let action = AgentLineAction { session_empty: false, writes_to_agent: writes };
        assert(action@.writes_to_agent =~= seq![write_to_agent@]);
        action
    }
}

/// The answer to a client tool that is refused.
pub open spec fn blocked_response(id: IdView, method: Seq<char>) -> ResponseView {
    ResponseView {
        id,
        result: None,
        error: Some(
            ErrorView {
                code: CLIENT_TOOL_BLOCKED_ERROR_CODE,
                message: "client tool request blocked by acp-mux policy: "@ + method,
                data: Some(
                    JsonView::object()
                        .field("reason"@, JsonView::String("client_tool_blocked"@))
                        .field("method"@, JsonView::String(method))
                        .field("policy"@, JsonView::String("block"@)),
                ),
            },
        ),
    }
}

/// The answer to a client tool that is refused.
pub fn build_client_tool_blocked_response(id: Id, method: &str) -> (frame: Vec<u8>)
    ensures
        frame@ == json::json_text(blocked_response(id@, method@).json()),
        !frame@.contains(10u8),
{
    let mut message = "client tool request blocked by acp-mux policy: ".to_owned();
    message.append(method);
    let data = Json::object()
        .field("reason", Json::string("client_tool_blocked"))
        .field("method", Json::string(method))
        .field("policy", Json::string("block"));
    let response = IncomingResponse {
        jsonrpc: JsonRpcVersion,
        id,
        result: None,
        error: Some(
            JsonRpcError { code: CLIENT_TOOL_BLOCKED_ERROR_CODE, message, data: Some(data) },
        ),
    };
    response.to_json().to_vec()
}

/// The requests of the agent that still wait.
pub open spec fn in_flight(agent_pending: Seq<(IdView, AgentReqState)>) -> Seq<IdView>
    decreases agent_pending.len(),
{
    if agent_pending.len() == 0 {
        Seq::empty()
    } else if agent_pending.last().1 == AgentReqState::InFlight {
        in_flight(agent_pending.drop_last()).push(agent_pending.last().0)
    } else {
        in_flight(agent_pending.drop_last())
    }
}

/// The mux id that the agent answers, where its response has one.
pub open spec fn answered(id: IdView) -> Option<u64> {
    match id {
        IdView::Number(n) => if n >= 0 {
            Some(n as u64)
        } else {
            None
        },
        _ => None,
    }
}

impl SessionView {
    /// Some requests of the agent wait no longer.
    pub open spec fn consume_all(self, ids: Seq<IdView>) -> SessionView
        decreases ids.len(),
    {
        if ids.len() == 0 {
            self
        } else {
            self.consume_all(ids.drop_last()).consume(ids.last())
        }
    }

    /// The frames that say that some requests of the agent are settled without
    /// a reply.
    pub open spec fn settled_frames(self, ids: Seq<IdView>, reason: Seq<char>) -> Seq<Seq<u8>> {
        ids.map_values(
            |id: IdView|
                json::json_text(
                    amux::agent_request_resolved_frame(
                        self.session_id,
                        id.json(),
                        reason,
                        None,
                        None,
                    ),
                ),
        )
    }

    /// Whatever the agent still waits for is settled, and the peers are told.
    pub open spec fn sweep_stale_agent_pending(self, reason: Seq<char>) -> SessionView {
        let stale = in_flight(self.agent_pending);
        self.consume_all(stale).broadcast_all(self.settled_frames(stale, reason))
    }

    /// `$/cancel_request` of the agent: it takes back one of its own requests.
    pub open spec fn handle_agent_cancel(self, notif: NotificationView, line: Seq<u8>) -> (
        SessionView,
        bool,
    ) {
        match inbound::cancel_target(notif.params) {
            None => (self, false),
            Some(id) => {
                let taken_back = match assoc::lookup(self.agent_pending, id) {
                    Some(AgentReqState::InFlight) => self.consume(id),
                    _ => self,
                };
                let told = taken_back.broadcast(line);
                (
                    told.broadcast(
                        json::json_text(
                            amux::agent_request_resolved_frame(
                                self.session_id,
                                id.json(),
                                amux::RESOLVED_BY_AGENT_CANCELLED@,
                                None,
                                None,
                            ),
                        ),
                    ),
                    taken_back.drains() || told.drains(),
                )
            },
        }
    }

    /// A notification of the agent. The second part says whether telling the
    /// peers lost the last of them.
    pub open spec fn handle_agent_notification(self, notif: NotificationView, line: Seq<u8>) -> (
        SessionView,
        bool,
    ) {
        if notif.method == CANCEL_REQUEST_METHOD@ {
            self.handle_agent_cancel(notif, line)
        } else {
            (self.broadcast(line), self.drains())
        }
    }

    /// A request of the agent is put to every peer. What the log keeps of it is
    /// a notification that nobody has to answer.
    pub open spec fn open_agent_request(self, req: RequestView, line: Seq<u8>) -> SessionView {
        let opened = SessionView {
            agent_pending: assoc::store(self.agent_pending, req.id, AgentReqState::InFlight),
            ..self
        }.broadcast(
            json::json_text(
                amux::agent_request_opened_frame(
                    self.session_id,
                    req.id.json(),
                    req.method,
                    req.params,
                    self.active_amux_turn_id,
                ),
            ),
        );
        let kept = if req.method == METHOD_REQUEST_PERMISSION@ {
            SessionView {
                pending_permission_frames: inbound::without_permission(
                    opened.pending_permission_frames,
                    req.id,
                ).push(PermissionView { id: req.id, frame: line }),
                ..opened
            }
        } else {
            opened
        };
        kept.fan_out(line)
    }

    /// A request of the agent: a client tool that is blocked is refused at once,
    /// and anything else is put to the peers, where there are any.
    pub open spec fn route_agent_request(self, req: RequestView, line: Seq<u8>) -> (
        SessionView,
        Option<Seq<u8>>,
    ) {
        if self.client_tool_policy.mode_of(req.method) == Some(ClientToolMode::Block) {
            (self, Some(json::json_text(blocked_response(req.id, req.method).json())))
        } else if self.subscribers.len() == 0 {
            (self, None)
        } else {
            (self.open_agent_request(req, line), None)
        }
    }

    /// The active turn has its answer: what it left open is settled, its end is
    /// told, and the next waiting prompt is submitted.
    pub open spec fn finish_turn(self, queue_item_id: Option<Seq<char>>, result: Option<JsonView>) -> (
        SessionView,
        Option<Seq<u8>>,
    ) {
        let swept = SessionView {
            active_turn_mux_id: None,
            active_turn_session_id: None,
            active_turn_prompt_text: None,
            active_amux_turn_id: None,
            ..self
        }.sweep_stale_agent_pending(RESOLVED_BY_TURN_END@);
        let told = match self.active_amux_turn_id {
            Some(turn_id) => {
                let complete = swept.emit_turn_complete(turn_id, result);
                match queue_item_id {
                    Some(queue_item_id) => complete.broadcast(
                        json::json_text(
                            amux::queue_item_completed_frame(
                                self.session_id,
                                queue_item_id,
                                turn_id,
                                turn::stop_reason_of(result),
                            ),
                        ),
                    ),
                    None => complete,
                }
            },
            None => swept,
        };
        told.submit_next_queued_prompt()
    }

    /// What the session remembers of an answer. The first success counts; a
    /// load counts whenever it succeeds.
    pub open spec fn remember(
        self,
        handshake: Option<HandshakeView>,
        result: Option<JsonView>,
    ) -> SessionView {
        match (handshake, result) {
            (Some(HandshakeView::Initialize), Some(result)) => if self.initialize_cache is None {
                SessionView { initialize_cache: Some(result), ..self }
            } else {
                self
            },
            (Some(HandshakeView::SessionNew), Some(result)) => {
                let cached = if self.session_new_cache is None {
                    SessionView { session_new_cache: Some(result), ..self }
                } else {
                    self
                };
                match result.get_str("sessionId"@) {
                    Some(id) => cached.set_canonical_session_id(id),
                    None => cached,
                }
            },
            (
                Some(HandshakeView::SessionLoad { loaded_session_id, replay_start_len }),
                Some(_),
            ) => self.rebind_canonical_session(loaded_session_id).set_canonical_session_id(
                loaded_session_id,
            ).reset_replay_generation_after_load(loaded_session_id, replay_start_len),
            _ => self,
        }
    }

    /// The answer to a request goes to the peer that asked, under its own id.
    pub open spec fn deliver_response(self, pending: PendingView, resp: ResponseView) -> SessionView {
        if pending.deliver_response {
            self.respond(
                pending.peer_id,
                ResponseView {
                    id: pending.original_id,
                    result: match resp.result {
                        Some(result) => if pending.decorate_session_list {
                            Some(self.index.decorated_list(result))
                        } else {
                            Some(result)
                        },
                        None => None,
                    },
                    error: resp.error,
                },
            )
        } else {
            self
        }
    }

    /// A response of the agent. The second part is what the agent is sent next.
    pub open spec fn route_agent_response(self, resp: ResponseView) -> (
        SessionView,
        Option<Seq<u8>>,
    ) {
        match answered(resp.id) {
            None => (self, None),
            Some(mux_id) => match assoc::lookup(self.pending, mux_id) {
                None => (self, None),
                Some(pending) => {
                    let settled = SessionView {
                        pending: assoc::erase(self.pending, mux_id),
                        ..self
                    };
                    let (after, write) = if self.active_turn_mux_id == Some(mux_id) {
                        settled.finish_turn(pending.queue_item_id, resp.result)
                    } else {
                        (settled, None)
                    };
                    (
                        after.remember(pending.handshake, resp.result).deliver_response(
                            pending,
                            resp,
                        ),
                        write,
                    )
                },
            },
        }
    }

    /// Whether somebody was attached before, and nobody is now.
    pub open spec fn emptied(self, before: SessionView) -> bool {
        before.subscribers.len() > 0 && self.subscribers.len() == 0
    }

    /// A line of the agent. What is no JSON-RPC envelope goes to every peer as
    /// it is. Where telling the peers loses the last of them, the action says so,
    /// whatever the line was.
    pub open spec fn handle_agent_line(self, line: Seq<u8>) -> (SessionView, ActionView) {
        match IncomingView::read(line) {
            Err(_) => (self.broadcast(line), ActionView::empty(self.drains())),
            Ok(IncomingView::Notification(notif)) => {
                let (after, empty) = self.handle_agent_notification(notif, line);
                (after, ActionView::empty(empty))
            },
            Ok(IncomingView::Response(resp)) => {
                let (after, write) = self.route_agent_response(resp);
                (after, ActionView::write(after.emptied(self), write))
            },
            Ok(IncomingView::Request(req)) => {
                let (after, write) = self.route_agent_request(req, line);
                (after, ActionView::write(after.emptied(self), write))
            },
        }
    }
}

/// Settling requests of the agent touches what is known of these requests, and
/// nothing else.
pub proof fn lemma_consume_all_scope(session: SessionView, ids: Seq<IdView>)
    ensures
        ({
            let after = session.consume_all(ids);
            after == (SessionView {
                agent_pending: after.agent_pending,
                pending_permission_frames: after.pending_permission_frames,
                ..session
            })
        }),
    decreases ids.len(),
{
    if ids.len() > 0 {
        lemma_consume_all_scope(session, ids.drop_last());
    }
}

/// Sweeping touches the requests of the agent, the log, the outbox and who is
/// still attached, and nothing else.
pub proof fn lemma_sweep_scope(session: SessionView, reason: Seq<char>)
    ensures
        ({
            let after = session.sweep_stale_agent_pending(reason);
            after == (SessionView {
                agent_pending: after.agent_pending,
                pending_permission_frames: after.pending_permission_frames,
                replay_log: after.replay_log,
                next_replay_seq: after.next_replay_seq,
                subscribers: after.subscribers,
                outbox: after.outbox,
                ..session
            })
        }),
{
    let stale = in_flight(session.agent_pending);
    lemma_consume_all_scope(session, stale);
    attach::lemma_broadcast_all_scope(
        session.consume_all(stale),
        session.settled_frames(stale, reason),
    );
}

impl SessionInner {
    fn stale_agent_requests(&self) -> (ids: Vec<Id>)
        ensures
            ids.deep_view() == in_flight(self@.agent_pending),
    {
        let ghost all = self@.agent_pending;
        let mut ids: Vec<Id> = Vec::new();
        let mut at: usize = 0;
        assert(all.take(0) =~= Seq::empty());
        assert(ids.deep_view() =~= Seq::empty());
        while at < self.agent_pending.len()
            invariant
                at <= self.agent_pending@.len(),
                all == self@.agent_pending,
                ids.deep_view() == in_flight(all.take(at as int)),
            decreases self.agent_pending@.len() - at,
        {
            assert(all.take(at + 1).drop_last() =~= all.take(at as int));
            assert(all[at as int] == self.agent_pending@[at as int].deep_view());
            let ghost before = ids.deep_view();
            if self.agent_pending[at].1 == AgentReqState::InFlight {
                let id = self.agent_pending[at].0.clone();
                ids.push(id);
                assert(ids.deep_view() =~= before.push(id@));
            }
            at += 1;
        }
        assert(all.take(at as int) =~= all);
        ids
    }

    /// Settles whatever the agent still waits for, and tells the peers.
    pub fn sweep_stale_agent_pending(&mut self, reason: &str)
        ensures
            final(self)@ == old(self)@.sweep_stale_agent_pending(reason@),
    {
        let ids = self.stale_agent_requests();
        let ghost stale = ids.deep_view();
        let ghost before = self@;
        let mut at: usize = 0;
        assert(stale.take(0) =~= Seq::empty());
        while at < ids.len()
            invariant
                at <= ids@.len(),
                stale == ids.deep_view(),
                self@ == before.consume_all(stale.take(at as int)),
                self@.session_id == before.session_id,
            decreases ids@.len() - at,
        {
            assert(stale.take(at + 1).drop_last() =~= stale.take(at as int));
            assert(stale[at as int] == ids@[at as int]@);
            self.consume(&ids[at]);
            at += 1;
        }
        assert(stale.take(at as int) =~= stale);
        let ghost consumed = self@;
        let ghost frames = before.settled_frames(stale, reason@);
        let mut told: usize = 0;
        assert(frames.take(0) =~= Seq::empty());
        while told < ids.len()
            invariant
                told <= ids@.len(),
                stale == ids.deep_view(),
                frames == before.settled_frames(stale, reason@),
                self@ == consumed.broadcast_all(frames.take(told as int)),
                self@.session_id == before.session_id,
            decreases ids@.len() - told,
        {
            assert(frames.take(told + 1).drop_last() =~= frames.take(told as int));
            assert(stale[told as int] == ids@[told as int]@);
            let frame = amux::agent_request_resolved(
                &self.session_id,
                &ids[told].to_json(),
                reason,
                None,
                None,
            );
            self.broadcast(frame);
            told += 1;
        }
        assert(frames.take(told as int) =~= frames);
    }

    /// Handles `$/cancel_request` of the agent.
    pub fn handle_agent_cancel(&mut self, notif: IncomingNotification, line: Vec<u8>) -> (empty: bool)
        ensures
            final(self)@ == old(self)@.handle_agent_cancel(notif@, line@).0,
            empty == old(self)@.handle_agent_cancel(notif@, line@).1,
    {
        let request_id = match parse_cancel_request_id(&notif.params) {
            Some(id) => id,
            None => {
                return false;
            },
        };
        let waits = match table::get(&self.agent_pending, &request_id) {
            Some(state) => *state == AgentReqState::InFlight,
            None => false,
        };
        if waits {
            self.consume(&request_id);
        }
        let drained = self.broadcast(line);
        let frame = amux::agent_request_resolved(
            &self.session_id,
            &request_id.to_json(),
            amux::RESOLVED_BY_AGENT_CANCELLED,
            None,
            None,
        );
        let drained_later = self.broadcast(frame);
        drained || drained_later
    }

    /// Handles a notification of the agent. Returns whether that lost the last
    /// peer.
    pub fn handle_agent_notification(&mut self, notif: IncomingNotification, line: Vec<u8>) -> (empty:
        bool)
        ensures
            final(self)@ == old(self)@.handle_agent_notification(notif@, line@).0,
            empty == old(self)@.handle_agent_notification(notif@, line@).1,
    {
        if same_text(&notif.method, CANCEL_REQUEST_METHOD) {
            return self.handle_agent_cancel(notif, line);
        }
        self.broadcast(line)
    }

    /// Handles a request of the agent. Returns what the agent is to be sent.
    pub fn route_agent_request(&mut self, req: IncomingRequest, line: Vec<u8>) -> (write: Option<
        Vec<u8>,
    >)
        ensures
            final(self)@ == old(self)@.route_agent_request(req@, line@).0,
            turn::bytes_opt(write) == old(self)@.route_agent_request(req@, line@).1,
    {
        if let Some(ClientToolMode::Block) = self.client_tool_policy.mode_for_method(&req.method) {
            return Some(build_client_tool_blocked_response(req.id, &req.method));
        }
        assert(self@.subscribers.len() == self.subscribers@.len());
        if self.subscribers.len() == 0 {
            return None;
        }
        table::put(&mut self.agent_pending, req.id.clone(), AgentReqState::InFlight);
        let opened = amux::agent_request_opened(
            &self.session_id,
            &req.id.to_json(),
            &req.method,
            req.params.as_ref(),
            self.active_amux_turn_id,
        );
        self.broadcast(opened);
        if same_text(&req.method, METHOD_REQUEST_PERMISSION) {
            self.drop_permission(&req.id);
            let ghost before = self.pending_permission_frames.deep_view();
            let permission = PermissionFrame { id: req.id, frame: copy_bytes(&line) };
            self.pending_permission_frames.push(permission);
            assert(self.pending_permission_frames.deep_view() =~= before.push(
                permission.deep_view(),
            ));
        }
        self.fan_out(&line);
        None
    }

    /// Ends the active turn. Returns what the agent is to be sent.
    pub fn finish_turn(&mut self, queue_item_id: &Option<String>, result: &Option<Json>) -> (write:
        Option<Vec<u8>>)
        ensures
            final(self)@ == old(self)@.finish_turn(
                queue_item_id.deep_view(),
                result.deep_view(),
            ).0,
            turn::bytes_opt(write) == old(self)@.finish_turn(
                queue_item_id.deep_view(),
                result.deep_view(),
            ).1,
    {
        self.active_turn_mux_id = None;
        self.active_turn_session_id = None;
        self.active_turn_prompt_text = None;
        let turn_id = self.active_amux_turn_id.take();
        proof {
            lemma_sweep_scope(self@, RESOLVED_BY_TURN_END@);
        }
        self.sweep_stale_agent_pending(RESOLVED_BY_TURN_END);
        if let Some(turn_id) = turn_id {
            self.emit_turn_complete(turn_id, result);
            if let Some(queue_item_id) = queue_item_id {
                let frame = amux::queue_item_completed(
                    &self.session_id,
                    queue_item_id,
                    turn_id,
                    &read_stop_reason(result),
                );
                self.broadcast(frame);
            }
        }
        self.submit_next_queued_prompt()
    }

    /// Remembers what the session is to remember of an answer.
    pub fn remember(&mut self, handshake: &Option<HandshakeKind>, result: &Option<Json>)
        ensures
            final(self)@ == old(self)@.remember(handshake.deep_view(), result.deep_view()),
    {
        let result = match result {
            Some(result) => result,
            None => {
                return;
            },
        };
        match handshake {
            Some(HandshakeKind::Initialize) => {
                if self.initialize_cache.is_none() {
                    self.initialize_cache = Some(result.clone());
                }
            },
            Some(HandshakeKind::SessionNew) => {
                if self.session_new_cache.is_none() {
                    self.session_new_cache = Some(result.clone());
                }
                if let Some(acp_session_id) = result.get_str("sessionId") {
                    self.set_canonical_session_id(acp_session_id);
                }
            },
            Some(HandshakeKind::SessionLoad { loaded_session_id, replay_start_len }) => {
                self.rebind_canonical_session(loaded_session_id);
                self.set_canonical_session_id(loaded_session_id);
                self.reset_replay_generation_after_load(loaded_session_id, *replay_start_len);
            },
            None => {},
        }
    }

    /// Adds to the result of `session/list` what the index knows of each
    /// session.
    pub fn decorate_session_list_response(&self, result: Option<Json>) -> (decorated: Option<Json>)
        ensures
            decorated.deep_view() == match result.deep_view() {
                Some(result) => Some(self@.index.decorated_list(result)),
                None => None,
            },
    {
        match result {
            Some(result) => Some(self.session_list_index.decorate_list(result)),
            None => None,
        }
    }

    /// Handles a response of the agent. Returns what the agent is to be sent
    /// next.
    pub fn route_agent_response(&mut self, resp: IncomingResponse) -> (write: Option<Vec<u8>>)
        ensures
            final(self)@ == old(self)@.route_agent_response(resp@).0,
            turn::bytes_opt(write) == old(self)@.route_agent_response(resp@).1,
    {
        let mux_id: u64 = match &resp.id {
            Id::Number(n) => if *n >= 0 {
                *n as u64
            } else {
                return None;
            },
            _ => {
                return None;
            },
        };
        let pending = match table::take(&mut self.pending, &mux_id) {
            Some(pending) => pending,
            None => {
                return None;
            },
        };
        let active = match self.active_turn_mux_id {
            Some(active) => active == mux_id,
            None => false,
        };
        let next_write = if active {
            self.finish_turn(&pending.queue_item_id, &resp.result)
        } else {
            None
        };
        self.remember(&pending.handshake, &resp.result);
        if pending.deliver_response {
            let result = if pending.decorate_session_list {
                self.decorate_session_list_response(resp.result)
            } else {
                resp.result
            };
            self.respond(
                &pending.peer_id,
                IncomingResponse {
                    jsonrpc: JsonRpcVersion,
                    id: pending.original_id,
                    result,
                    error: resp.error,
                },
            );
        }
        next_write
    }

    /// Handles a line of the agent.
    pub fn handle_agent_line(&mut self, line: Vec<u8>) -> (action: AgentLineAction)
        ensures
            final(self)@ == old(self)@.handle_agent_line(line@).0,
            action@ == old(self)@.handle_agent_line(line@).1,
    {
        let before: usize = self.subscribers.len();
        assert(before == old(self)@.subscribers.len());
        let write = match Incoming::parse(&line) {
            Err(_) => {
                return AgentLineAction::session_empty(self.broadcast(line));
            },
            Ok(Incoming::Notification(notif)) => {
                return AgentLineAction::session_empty(self.handle_agent_notification(notif, line));
            },
            Ok(Incoming::Response(resp)) => self.route_agent_response(resp),
            Ok(Incoming::Request(req)) => self.route_agent_request(req, line),
        };
        assert(self@.subscribers.len() == self.subscribers@.len());
        let mut action = match write {
            Some(write) => AgentLineAction::write_to_agent(write),
            None => AgentLineAction::none(),
        };
        action.session_empty = before > 0 && self.subscribers.len() == 0;
        action
    }
}

} // verus!

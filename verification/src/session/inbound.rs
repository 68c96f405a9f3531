//! What the session does with a frame of a subscriber: answer it, drop it, or
//! pass it on to the agent.

use crate::assoc;
use crate::cli::{ClientToolMode, ClientToolPolicy};
use crate::json;
use crate::json::{Json, JsonView};
use crate::protocol::amux;
use crate::protocol::amux::AmuxTurnId;
use crate::protocol::attach::{METHOD_ATTACH, METHOD_DETACH};
use crate::protocol::jsonrpc::{
    clone_opt, ErrorView, Id, IdView, Incoming, IncomingNotification, IncomingRequest, IncomingResponse,
    IncomingView, JsonRpcVersion, NotificationView, RequestView, ResponseView, VERSION,
};
use crate::protocol::session_update;
use crate::session::control;
use crate::session::control::build_session_cancel;
use crate::session::state::{
    bump, bumped, wire_id, AgentReqState, HandshakeKind, HandshakeView, PendingRequest, PendingView,
    PermissionFrame, PermissionView, SessionInner, SessionView, CANCEL_REQUEST_METHOD,
    SESSION_BUSY_ERROR_CODE,
};
use crate::session::turn;
use crate::session::turn::{text_from_text_only_prompt, text_ref};
use crate::table;
use crate::text::same_text;
use vstd::prelude::*;

verus! {

/// The request id that a cancellation names, which is not null.
pub open spec fn cancel_target(params: Option<JsonView>) -> Option<IdView> {
    match params {
        Some(params) => match params.get("requestId"@) {
            Some(id) => match IdView::of(id) {
                Some(IdView::Null) => None,
                id => id,
            },
            None => None,
        },
        None => None,
    }
}

/// The request id that a cancellation names, which is not null.
pub fn parse_cancel_request_id(params: &Option<Json>) -> (id: Option<Id>)
    ensures
        id.deep_view() == cancel_target(params.deep_view()),
{
    match params {
        Some(params) => match params.get("requestId") {
            Some(id) => match Id::from_json(id) {
                Some(Id::Null) => None,
                id => id,
            },
            None => None,
        },
        None => None,
    }
}

/// The frame that cancels a request.
pub open spec fn cancel_request_frame(id: IdView) -> JsonView {
    JsonView::object()
        .field("jsonrpc"@, JsonView::String(VERSION@))
        .field("method"@, JsonView::String(CANCEL_REQUEST_METHOD@))
        .field("params"@, JsonView::object().field("requestId"@, id.json()))
}

/// The frame that cancels a request.
pub fn build_cancel_request(request_id: Id) -> (frame: Vec<u8>)
    ensures
        frame@ == json::json_text(cancel_request_frame(request_id@)),
        !frame@.contains(10u8),
{
    Json::object()
        .field("jsonrpc", Json::string(VERSION))
        .field("method", Json::string(CANCEL_REQUEST_METHOD))
        .field("params", Json::object().field("requestId", request_id.to_json()))
        .to_vec()
}

/// The mux id of the first request in flight that a peer sent under an id.
pub open spec fn sent_by(
    pending: Seq<(u64, PendingView)>,
    peer_id: Seq<char>,
    original_id: IdView,
) -> Option<u64>
    decreases pending.len(),
{
    if pending.len() == 0 {
        None
    } else if pending[0].1.peer_id == peer_id && pending[0].1.original_id == original_id {
        Some(pending[0].0)
    } else {
        sent_by(pending.drop_first(), peer_id, original_id)
    }
}

/// The permission requests that wait, but for one.
pub open spec fn without_permission(pending: Seq<PermissionView>, id: IdView) -> Seq<PermissionView>
    decreases pending.len(),
{
    if pending.len() == 0 {
        Seq::empty()
    } else if pending.last().id == id {
        without_permission(pending.drop_last(), id)
    } else {
        without_permission(pending.drop_last(), id).push(pending.last())
    }
}

/// The option that a reply to a permission request chose.
pub open spec fn chosen_option(result: Option<JsonView>) -> Option<Seq<char>> {
    match result {
        Some(result) => match result.get("outcome"@) {
            Some(outcome) => outcome.get_str("optionId"@),
            None => None,
        },
        None => None,
    }
}

fn read_chosen_option(result: &Option<Json>) -> (option: Option<&str>)
    ensures
        option.deep_view() == chosen_option(result.deep_view()),
{
    match result {
        Some(result) => match result.get("outcome") {
            Some(outcome) => outcome.get_str("optionId"),
            None => None,
        },
        None => None,
    }
}

/// An optional error as a document.
pub open spec fn error_json(error: Option<ErrorView>) -> Option<JsonView> {
    match error {
        Some(error) => Some(error.json()),
        None => None,
    }
}

/// The parameters of `initialize` without the client tools that the policy
/// blocks.
pub open spec fn sanitized(policy: ClientToolPolicy, params: Option<JsonView>) -> Option<JsonView> {
    match params {
        Some(object) => match object.get("clientCapabilities"@) {
            Some(JsonView::Object(members)) => {
                let offered = JsonView::Object(members);
                let fs = if policy.fs == ClientToolMode::Block {
                    offered.without("fs"@)
                } else {
                    offered
                };
                let terminal = if policy.terminal == ClientToolMode::Block {
                    fs.without("terminal"@)
                } else {
                    fs
                };
                Some(object.field("clientCapabilities"@, terminal))
            },
            _ => params,
        },
        None => params,
    }
}

/// The text that the member `key` of the parameters is.
pub open spec fn param_text(params: Option<JsonView>, key: Seq<char>) -> Option<Seq<char>> {
    match params {
        Some(params) => params.get_str(key),
        None => None,
    }
}

fn read_param_text(params: &Option<Json>, key: &str) -> (text: Option<String>)
    ensures
        text.deep_view() == param_text(params.deep_view(), key@),
{
    match params {
        Some(params) => match params.get_str(key) {
            Some(text) => Some(text.to_owned()),
            None => None,
        },
        None => None,
    }
}

/// The text of the prompt in the parameters, where it is text alone.
pub open spec fn param_prompt_text(params: Option<JsonView>) -> Option<Seq<char>> {
    match params {
        Some(params) => match params.get("prompt"@) {
            Some(prompt) => turn::prompt_text(prompt),
            None => None,
        },
        None => None,
    }
}

fn read_param_prompt_text(params: &Option<Json>) -> (text: Option<String>)
    ensures
        text.deep_view() == param_prompt_text(params.deep_view()),
{
    match params {
        Some(params) => match params.get("prompt") {
            Some(prompt) => text_from_text_only_prompt(prompt),
            None => None,
        },
        None => None,
    }
}

impl SessionView {
    /// `$/cancel_request` of a subscriber: it cancels the subscriber's own
    /// request, under the id that the agent knows it by.
    pub open spec fn handle_subscriber_cancel(
        self,
        peer_id: Seq<char>,
        notif: NotificationView,
    ) -> Option<Seq<u8>> {
        match cancel_target(notif.params) {
            Some(id) => match sent_by(self.pending, peer_id, id) {
                Some(mux_id) => Some(json::json_text(cancel_request_frame(wire_id(mux_id)))),
                None => None,
            },
            None => None,
        }
    }

    /// `amux/cancel_active_turn`: any peer cancels the active turn.
    pub open spec fn handle_amux_cancel_active_turn(
        self,
        peer_id: Seq<char>,
        notif: NotificationView,
    ) -> (SessionView, Option<Seq<u8>>) {
        match (self.active_turn_mux_id, self.active_amux_turn_id, self.active_turn_session_id) {
            (Some(mux_id), Some(turn_id), Some(session_id)) => match self.turn_owner(mux_id) {
                Some(driver) => (
                    self.broadcast(
                        json::json_text(
                            amux::turn_cancelled_frame(
                                self.session_id,
                                turn_id,
                                peer_id,
                                driver,
                                param_text(notif.params, "reason"@),
                            ),
                        ),
                    ),
                    Some(json::json_text(control::session_cancel_frame(session_id))),
                ),
                None => (self, None),
            },
            _ => (self, None),
        }
    }

    /// A notification of a subscriber.
    pub open spec fn handle_subscriber_notification(
        self,
        peer_id: Seq<char>,
        notif: NotificationView,
        bytes: Seq<u8>,
    ) -> (SessionView, Option<Seq<u8>>) {
        if notif.method == CANCEL_REQUEST_METHOD@ {
            (self, self.handle_subscriber_cancel(peer_id, notif))
        } else if notif.method == amux::METHOD_CANCEL_ACTIVE_TURN@ {
            self.handle_amux_cancel_active_turn(peer_id, notif)
        } else {
            (self, Some(bytes))
        }
    }

    /// The peers are told that a request of the agent has its reply.
    pub open spec fn emit_agent_request_resolved(
        self,
        resolved_by: Seq<char>,
        resp: ResponseView,
    ) -> SessionView {
        let error = error_json(resp.error);
        let told = self.broadcast(
            json::json_text(
                amux::agent_request_resolved_frame(
                    self.session_id,
                    resp.id.json(),
                    resolved_by,
                    resp.result,
                    error,
                ),
            ),
        );
        match told.acp_session_id() {
            Some(acp_id) => told.broadcast(
                json::json_text(
                    session_update::permission_resolved_frame(
                        acp_id,
                        resp.id.json(),
                        resolved_by,
                        told.peer_labels(resolved_by).0,
                        chosen_option(resp.result),
                        resp.result,
                        error,
                    ),
                ),
            ),
            None => told,
        }
    }

    /// A request of the agent waits no longer.
    pub open spec fn consume(self, id: IdView) -> SessionView {
        SessionView {
            agent_pending: assoc::store(self.agent_pending, id, AgentReqState::Consumed),
            pending_permission_frames: without_permission(self.pending_permission_frames, id),
            ..self
        }
    }

    /// A response of a subscriber: the first one to a request of the agent is
    /// passed on, later ones are dropped, and others pass unchanged.
    pub open spec fn gate_subscriber_response(
        self,
        peer_id: Seq<char>,
        resp: ResponseView,
        bytes: Seq<u8>,
    ) -> (SessionView, Option<Seq<u8>>) {
        match assoc::lookup(self.agent_pending, resp.id) {
            Some(AgentReqState::InFlight) => (
                self.consume(resp.id).emit_agent_request_resolved(peer_id, resp),
                Some(bytes),
            ),
            Some(AgentReqState::Consumed) => (self, None),
            None => (self, Some(bytes)),
        }
    }

    /// A prompt while a turn is active: everybody is told that the session is
    /// busy, and the peer gets an error.
    pub open spec fn reject_busy(self, peer_id: Seq<char>, id: IdView, mux_id: u64) -> SessionView {
        self.broadcast(
            json::json_text(
                amux::session_busy_frame(self.session_id, true, self.turn_owner(mux_id)),
            ),
        ).send_error_response(
            peer_id,
            id,
            SESSION_BUSY_ERROR_CODE,
            "session busy: another turn is in flight"@,
        )
    }

    /// What the session is to remember of the answer to a request.
    pub open spec fn handshake_of(self, method: Seq<char>, params: Option<JsonView>) -> Option<
        HandshakeView,
    > {
        if method == "initialize"@ {
            Some(HandshakeView::Initialize)
        } else if method == "session/new"@ {
            Some(HandshakeView::SessionNew)
        } else if method == "session/load"@ {
            match param_text(params, "sessionId"@) {
                Some(loaded_session_id) => Some(
                    HandshakeView::SessionLoad {
                        loaded_session_id,
                        replay_start_len: match self.replay_log {
                            Some(log) => log.len(),
                            None => 0,
                        },
                    },
                ),
                None => None,
            }
        } else {
            None
        }
    }

    /// A request goes to the agent under a mux id of its own. A prompt becomes
    /// the active turn.
    pub open spec fn forward_request(self, peer_id: Seq<char>, req: RequestView) -> (
        SessionView,
        Option<Seq<u8>>,
    ) {
        let params = if req.method == "initialize"@ {
            sanitized(self.client_tool_policy, req.params)
        } else {
            req.params
        };
        let noted = if req.method == "initialize"@ {
            self
        } else {
            self.note_driving_subscriber(peer_id)
        };
        let mux_id = noted.next_mux_id;
        let is_prompt = req.method == "session/prompt"@;
        let turn_id = AmuxTurnId(noted.next_amux_turn_id);
        let turn = if is_prompt {
            Some(turn_id)
        } else {
            None
        };
        let entered = SessionView {
            next_mux_id: bump(mux_id),
            next_amux_turn_id: if is_prompt {
                bump(noted.next_amux_turn_id)
            } else {
                noted.next_amux_turn_id
            },
            pending: assoc::store(
                noted.pending,
                mux_id,
                PendingView {
                    peer_id,
                    original_id: req.id,
                    handshake: noted.handshake_of(req.method, params),
                    decorate_session_list: req.method == "session/list"@,
                    deliver_response: true,
                    queue_item_id: None,
                },
            ),
            ..noted
        };
        let outgoing = entered.outgoing_params(peer_id, mux_id, turn, params);
        let opened = if is_prompt {
            SessionView {
                active_turn_mux_id: Some(mux_id),
                active_amux_turn_id: Some(turn_id),
                active_turn_session_id: match param_text(params, "sessionId"@) {
                    Some(id) => Some(id),
                    None => noted.canonical_session_id,
                },
                active_turn_prompt_text: param_prompt_text(params),
                ..entered
            }.emit_turn_started(peer_id, turn_id, outgoing, None)
        } else {
            entered
        };
        (
            opened,
            Some(
                json::json_text(
                    RequestView {
                        id: wire_id(mux_id),
                        method: req.method,
                        params: outgoing,
                    }.json(),
                ),
            ),
        )
    }

    /// A request of a subscriber.
    pub open spec fn translate_outbound_request(self, peer_id: Seq<char>, req: RequestView) -> (
        SessionView,
        Option<Seq<u8>>,
    ) {
        if req.method == METHOD_ATTACH@ {
            (self.handle_attach(peer_id, req), None)
        } else if req.method == METHOD_DETACH@ {
            (self.handle_detach(peer_id, req), None)
        } else if req.method == "initialize"@ && self.initialize_cache is Some {
            (self.send_result_response(peer_id, req.id, self.initialize_cache->0), None)
        } else if req.method == "session/new"@ && self.session_new_cache is Some {
            (
                self.note_driving_subscriber(peer_id).send_result_response(
                    peer_id,
                    req.id,
                    self.session_new_cache->0,
                ),
                None,
            )
        } else if req.method == amux::METHOD_STEER_ACTIVE_TURN@ {
            self.handle_amux_steer_request(peer_id, req)
        } else if req.method == amux::METHOD_QUEUE_PROMPT@ {
            self.handle_amux_queue_prompt_request(peer_id, req)
        } else if req.method == amux::METHOD_UNQUEUE_PROMPT@ {
            (self.handle_amux_unqueue_prompt_request(peer_id, req), None)
        } else if req.method == "session/prompt"@ && self.active_turn_mux_id is Some {
            (self.reject_busy(peer_id, req.id, self.active_turn_mux_id->0), None)
        } else {
            self.forward_request(peer_id, req)
        }
    }

    /// A frame of a subscriber. The second part is what the agent is sent. A
    /// frame that is no JSON-RPC envelope is dropped.
    pub open spec fn handle_inbound(self, peer_id: Seq<char>, bytes: Seq<u8>) -> (
        SessionView,
        Option<Seq<u8>>,
    ) {
        match IncomingView::read(bytes) {
            Err(_) => (self, None),
            Ok(IncomingView::Notification(notif)) => self.handle_subscriber_notification(
                peer_id,
                notif,
                bytes,
            ),
            Ok(IncomingView::Response(resp)) => self.gate_subscriber_response(peer_id, resp, bytes),
            Ok(IncomingView::Request(req)) => self.translate_outbound_request(peer_id, req),
        }
    }
}

impl SessionInner {
    /// The mux id of the first request in flight that a peer sent under an id.
    pub fn find_pending_mux_id(&self, peer_id: &str, original_id: &Id) -> (mux_id: Option<u64>)
        ensures
            mux_id == sent_by(self@.pending, peer_id@, original_id@),
    {
        let ghost all = self@.pending;
        let owner = peer_id.to_owned();
        let mut at: usize = 0;
        assert(all.skip(0) =~= all);
        while at < self.pending.len()
            invariant
                at <= self.pending@.len(),
                owner@ == peer_id@,
                all == self@.pending,
                all.len() == self.pending@.len(),
                sent_by(all, peer_id@, original_id@) == sent_by(
                    all.skip(at as int),
                    peer_id@,
                    original_id@,
                ),
            decreases self.pending@.len() - at,
        {
            assert(all.skip(at as int)[0] == self.pending@[at as int].deep_view());
            assert(all.skip(at as int).drop_first() =~= all.skip(at + 1));
            if self.pending[at].1.peer_id == owner && self.pending[at].1.original_id.same(
                original_id,
            ) {
                return Some(self.pending[at].0);
            }
            at += 1;
        }
        None
    }

    /// Handles `$/cancel_request` of a subscriber.
    pub fn handle_subscriber_cancel(&mut self, peer_id: &str, notif: IncomingNotification) -> (write:
        Option<Vec<u8>>)
        ensures
            final(self)@ == old(self)@,
            turn::bytes_opt(write) == old(self)@.handle_subscriber_cancel(peer_id@, notif@),
    {
        match parse_cancel_request_id(&notif.params) {
            Some(id) => match self.find_pending_mux_id(peer_id, &id) {
                Some(mux_id) => Some(build_cancel_request(Id::Number(mux_id as i64))),
                None => None,
            },
            None => None,
        }
    }

    /// Handles `amux/cancel_active_turn`.
    pub fn handle_amux_cancel_active_turn(&mut self, peer_id: &str, notif: IncomingNotification) -> (
    write: Option<Vec<u8>>)
        ensures
            final(self)@ == old(self)@.handle_amux_cancel_active_turn(peer_id@, notif@).0,
            turn::bytes_opt(write) == old(self)@.handle_amux_cancel_active_turn(
                peer_id@,
                notif@,
            ).1,
    {
        let active_mux_id: u64 = match self.active_turn_mux_id {
            Some(mux_id) => mux_id,
            None => {
                return None;
            },
        };
        let amux_turn_id = match self.active_amux_turn_id {
            Some(turn_id) => turn_id,
            None => {
                return None;
            },
        };
        let original_driver = match table::get(&self.pending, &active_mux_id) {
            Some(pending) => pending.peer_id.clone(),
            None => {
                return None;
            },
        };
        let active_session_id = match &self.active_turn_session_id {
            Some(session_id) => session_id.clone(),
            None => {
                return None;
            },
        };
        let reason = read_param_text(&notif.params, "reason");
        let frame = amux::turn_cancelled(
            &self.session_id,
            amux_turn_id,
            peer_id,
            &original_driver,
            text_ref(&reason),
        );
        self.broadcast(frame);
        Some(build_session_cancel(&active_session_id))
    }

    /// Handles a notification of a subscriber.
    pub fn handle_subscriber_notification(
        &mut self,
        peer_id: &str,
        notif: IncomingNotification,
        bytes: Vec<u8>,
    ) -> (write: Option<Vec<u8>>)
        ensures
            final(self)@ == old(self)@.handle_subscriber_notification(
                peer_id@,
                notif@,
                bytes@,
            ).0,
            turn::bytes_opt(write) == old(self)@.handle_subscriber_notification(
                peer_id@,
                notif@,
                bytes@,
            ).1,
    {
        if same_text(&notif.method, CANCEL_REQUEST_METHOD) {
            self.handle_subscriber_cancel(peer_id, notif)
        } else if same_text(&notif.method, amux::METHOD_CANCEL_ACTIVE_TURN) {
            self.handle_amux_cancel_active_turn(peer_id, notif)
        } else {
            Some(bytes)
        }
    }

    /// Forgets a permission request that waits.
    pub fn drop_permission(&mut self, id: &Id)
        ensures
            final(self)@ == (SessionView {
                pending_permission_frames: without_permission(
                    old(self)@.pending_permission_frames,
                    id@,
                ),
                ..old(self)@
            }),
    {
        let ghost all = self@.pending_permission_frames;
        let mut waiting: Vec<PermissionFrame> = Vec::new();
        std::mem::swap(&mut waiting, &mut self.pending_permission_frames);
        let mut kept: Vec<PermissionFrame> = Vec::new();
        let count: usize = waiting.len();
        let mut done: usize = 0;
        assert(all.take(0) =~= Seq::empty());
        assert(kept.deep_view() =~= Seq::empty());
        assert(all.skip(0) =~= all);
        while done < count
            invariant
                done <= count,
                all.len() == count,
                waiting.deep_view() == all.skip(done as int),
                kept.deep_view() == without_permission(all.take(done as int), id@),
            decreases count - done,
        {
            let ghost rest = waiting.deep_view();
            let ghost queue = waiting@;
            assert(rest.len() == waiting@.len());
            let permission = waiting.remove(0);
            assert forall|i: int| 0 <= i < waiting@.len() implies waiting.deep_view()[i]
                == all.skip(done + 1)[i] by {
                assert(waiting@[i] == queue[i + 1]);
                assert(rest[i + 1] == all.skip(done as int)[i + 1]);
            }
            assert(waiting.deep_view() =~= all.skip(done + 1));
            assert(rest[0] == permission.deep_view());
            assert(rest[0] == all[done as int]);
            assert(all.take(done + 1).drop_last() =~= all.take(done as int));
            if !permission.id.same(id) {
                let ghost before = kept.deep_view();
                kept.push(permission);
                assert(kept.deep_view() =~= before.push(permission.deep_view()));
            }
            done += 1;
        }
        assert(all.take(count as int) =~= all);
        self.pending_permission_frames = kept;
    }

    /// Notes that a request of the agent waits no longer.
    pub fn consume(&mut self, id: &Id)
        ensures
            final(self)@ == old(self)@.consume(id@),
    {
        table::put(&mut self.agent_pending, id.clone(), AgentReqState::Consumed);
        self.drop_permission(id);
    }

    /// Tells the peers that a request of the agent has its reply.
    pub fn emit_agent_request_resolved(&mut self, resolved_by: &str, resp: &IncomingResponse)
        ensures
            final(self)@ == old(self)@.emit_agent_request_resolved(resolved_by@, resp@),
    {
        let request_id = resp.id.to_json();
        let error = match &resp.error {
            Some(error) => Some(error.to_json()),
            None => None,
        };
        let frame = amux::agent_request_resolved(
            &self.session_id,
            &request_id,
            resolved_by,
            resp.result.as_ref(),
            error.as_ref(),
        );
        self.broadcast(frame);
        if let Some(acp_id) = self.acp_session_id() {
            let (resolved_by_name, _) = self.peer_labels(resolved_by);
            let frame = session_update::permission_resolved(
                &acp_id,
                &request_id,
                resolved_by,
                text_ref(&resolved_by_name),
                read_chosen_option(&resp.result),
                resp.result.as_ref(),
                error.as_ref(),
            );
            self.broadcast(frame);
        }
    }

    /// Handles a response of a subscriber.
    pub fn gate_subscriber_response(
        &mut self,
        peer_id: &str,
        resp: IncomingResponse,
        bytes: Vec<u8>,
    ) -> (write: Option<Vec<u8>>)
        ensures
            final(self)@ == old(self)@.gate_subscriber_response(peer_id@, resp@, bytes@).0,
            turn::bytes_opt(write) == old(self)@.gate_subscriber_response(
                peer_id@,
                resp@,
                bytes@,
            ).1,
    {
        let known = match table::get(&self.agent_pending, &resp.id) {
            Some(state) => Some(*state),
            None => None,
        };
        match known {
            Some(AgentReqState::InFlight) => {
                self.consume(&resp.id);
                self.emit_agent_request_resolved(peer_id, &resp);
                Some(bytes)
            },
            Some(AgentReqState::Consumed) => None,
            None => Some(bytes),
        }
    }

    /// Takes the client tools that the policy blocks out of the parameters of
    /// `initialize`.
    pub fn sanitize_initialize_client_capabilities(&self, req: IncomingRequest) -> (sanitary:
        IncomingRequest)
        ensures
            sanitary@ == (RequestView {
                params: sanitized(self@.client_tool_policy, req@.params),
                ..req@
            }),
    {
        let params = match req.params {
            Some(object) => {
                let offered = match object.get("clientCapabilities") {
                    Some(capabilities) => if capabilities.is_object() {
                        Some(capabilities.clone())
                    } else {
                        None
                    },
                    None => None,
                };
                match offered {
                    Some(offered) => {
                        let fs = if self.client_tool_policy.fs == ClientToolMode::Block {
                            offered.without("fs")
                        } else {
                            offered
                        };
                        let terminal = if self.client_tool_policy.terminal
                            == ClientToolMode::Block {
                            fs.without("terminal")
                        } else {
                            fs
                        };
                        Some(object.field("clientCapabilities", terminal))
                    },
                    None => Some(object),
                }
            },
            None => None,
        };
        IncomingRequest { jsonrpc: JsonRpcVersion, id: req.id, method: req.method, params }
    }

    fn handshake_for(&self, method: &str, params: &Option<Json>) -> (handshake: Option<
        HandshakeKind,
    >)
        ensures
            handshake.deep_view() == self@.handshake_of(method@, params.deep_view()),
    {
        if same_text(method, "initialize") {
            Some(HandshakeKind::Initialize)
        } else if same_text(method, "session/new") {
            Some(HandshakeKind::SessionNew)
        } else if same_text(method, "session/load") {
            match read_param_text(params, "sessionId") {
                Some(loaded_session_id) => {
                    let replay_start_len: usize = match &self.replay_log {
                        Some(log) => log.len(),
                        None => 0,
                    };
                    Some(HandshakeKind::SessionLoad { loaded_session_id, replay_start_len })
                },
                None => None,
            }
        } else {
            None
        }
    }

    /// Passes a request on to the agent.
    pub fn forward_request(&mut self, peer_id: &str, req: IncomingRequest) -> (write: Option<
        Vec<u8>,
    >)
        ensures
            final(self)@ == old(self)@.forward_request(peer_id@, req@).0,
            turn::bytes_opt(write) == old(self)@.forward_request(peer_id@, req@).1,
    {
        let is_initialize = same_text(&req.method, "initialize");
        let is_prompt = same_text(&req.method, "session/prompt");
        let decorate_session_list = same_text(&req.method, "session/list");
        let req = if is_initialize {
            self.sanitize_initialize_client_capabilities(req)
        } else {
            self.note_driving_subscriber(peer_id);
            req
        };
        let handshake = self.handshake_for(&req.method, &req.params);
        let mux_id: u64 = self.next_mux_id;
        let turn_id = AmuxTurnId(self.next_amux_turn_id);
        let active_turn_session_id = match read_param_text(&req.params, "sessionId") {
            Some(id) => Some(id),
            None => self.canonical_session_id.clone(),
        };
        let active_turn_prompt_text = read_param_prompt_text(&req.params);
        self.next_mux_id = bumped(self.next_mux_id);
        if is_prompt {
            self.next_amux_turn_id = bumped(self.next_amux_turn_id);
        }
        table::put(
            &mut self.pending,
            mux_id,
            PendingRequest {
                peer_id: peer_id.to_owned(),
                original_id: req.id.clone(),
                handshake,
                decorate_session_list,
                deliver_response: true,
                queue_item_id: None,
            },
        );
        let turn = if is_prompt {
            Some(turn_id)
        } else {
            None
        };
        let req = IncomingRequest {
            jsonrpc: JsonRpcVersion,
            id: Id::Number(mux_id as i64),
            method: req.method,
            params: req.params,
        };
        let req = self.outgoing_request(peer_id, mux_id, turn, req);
        let out = req.to_json().to_vec();
        if is_prompt {
            self.active_turn_mux_id = Some(mux_id);
            self.active_amux_turn_id = Some(turn_id);
            self.active_turn_session_id = active_turn_session_id;
            self.active_turn_prompt_text = active_turn_prompt_text;
            self.emit_turn_started(peer_id, turn_id, &req.params, None);
        }
        Some(out)
    }

    /// Refuses a prompt while a turn is active.
    fn reject_busy(&mut self, peer_id: &str, id: Id, mux_id: u64)
        ensures
            final(self)@ == old(self)@.reject_busy(peer_id@, id@, mux_id),
    {
        let held_by = match table::get(&self.pending, &mux_id) {
            Some(pending) => Some(pending.peer_id.clone()),
            None => None,
        };
        let frame = amux::session_busy(&self.session_id, true, text_ref(&held_by));
        self.broadcast(frame);
        self.send_error_response(
            peer_id,
            id,
            SESSION_BUSY_ERROR_CODE,
            "session busy: another turn is in flight",
        );
    }

    /// Handles a request of a subscriber. Returns what the agent is to be sent.
    #[verifier::spinoff_prover]
    pub fn translate_outbound_request(&mut self, peer_id: &str, req: IncomingRequest) -> (write:
        Option<Vec<u8>>)
        ensures
            final(self)@ == old(self)@.translate_outbound_request(peer_id@, req@).0,
            turn::bytes_opt(write) == old(self)@.translate_outbound_request(peer_id@, req@).1,
    {
        if same_text(&req.method, METHOD_ATTACH) {
            self.handle_attach(peer_id, req);
            return None;
        }
        if same_text(&req.method, METHOD_DETACH) {
            self.handle_detach(peer_id, req);
            return None;
        }
        if same_text(&req.method, "initialize") {
            if let Some(cached) = clone_opt(&self.initialize_cache) {
                self.send_cached_response(peer_id, req.id, cached);
                return None;
            }
        }
        if same_text(&req.method, "session/new") {
            if let Some(cached) = clone_opt(&self.session_new_cache) {
                self.note_driving_subscriber(peer_id);
                self.send_cached_response(peer_id, req.id, cached);
                return None;
            }
        }
        if same_text(&req.method, amux::METHOD_STEER_ACTIVE_TURN) {
            return self.handle_amux_steer_request(peer_id, req);
        }
        if same_text(&req.method, amux::METHOD_QUEUE_PROMPT) {
            return self.handle_amux_queue_prompt_request(peer_id, req);
        }
        if same_text(&req.method, amux::METHOD_UNQUEUE_PROMPT) {
            return self.handle_amux_unqueue_prompt_request(peer_id, req);
        }
        if same_text(&req.method, "session/prompt") {
            if let Some(active) = self.active_turn_mux_id {
                self.reject_busy(peer_id, req.id, active);
                return None;
            }
        }
        self.forward_request(peer_id, req)
    }

    /// Handles a frame of a subscriber. Returns what the agent is to be sent.
    pub fn handle_inbound(&mut self, peer_id: &str, bytes: Vec<u8>) -> (write: Option<Vec<u8>>)
        ensures
            final(self)@ == old(self)@.handle_inbound(peer_id@, bytes@).0,
            turn::bytes_opt(write) == old(self)@.handle_inbound(peer_id@, bytes@).1,
    {
        match Incoming::parse(&bytes) {
            Ok(Incoming::Notification(notif)) => self.handle_subscriber_notification(
                peer_id,
                notif,
                bytes,
            ),
            Ok(Incoming::Response(resp)) => self.gate_subscriber_response(peer_id, resp, bytes),
            Ok(Incoming::Request(req)) => self.translate_outbound_request(peer_id, req),
            Err(_) => None,
        }
    }
}

} // verus!

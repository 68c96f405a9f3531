//! The `amux/*` requests by which peers queue prompts, take them back, and
//! steer the turn that is active.

use crate::assoc;
use crate::json;
use crate::json::{Json, JsonView};
use crate::protocol::amux;
use crate::protocol::amux::{AmuxTurnId, ControlSubmitted};
use crate::protocol::jsonrpc::{Id, IdView, IncomingRequest, RequestView, VERSION};
use crate::session::state::{
    bump, bumped, QueuedPrompt, QueuedPromptKind, QueuedPromptView, SessionInner, SessionView,
    INVALID_PARAMS_ERROR_CODE, MAX_MUX_QUEUE_PROMPTS, NO_ACTIVE_TURN_ERROR_CODE,
    QUEUE_FULL_ERROR_CODE, SESSION_CANCEL_METHOD,
};
use crate::session::turn;
use crate::session::turn::{text_from_text_only_prompt, text_ref};
use crate::table;
use crate::text;
use crate::text::trim;
use vstd::prelude::*;

verus! {

/// The frame that asks the agent to stop what a session is doing.
pub open spec fn session_cancel_frame(session_id: Seq<char>) -> JsonView {
    JsonView::object()
        .field("jsonrpc"@, JsonView::String(VERSION@))
        .field("method"@, JsonView::String(SESSION_CANCEL_METHOD@))
        .field("params"@, JsonView::object().field("sessionId"@, JsonView::String(session_id)))
}

/// The frame that asks the agent to stop what a session is doing.
pub fn build_session_cancel(session_id: &str) -> (frame: Vec<u8>)
    ensures
        frame@ == json::json_text(session_cancel_frame(session_id@)),
        !frame@.contains(10u8),
{
    Json::object()
        .field("jsonrpc", Json::string(VERSION))
        .field("method", Json::string(SESSION_CANCEL_METHOD))
        .field("params", Json::object().field("sessionId", Json::string(session_id)))
        .to_vec()
}

/// What stands for a prompt that is not text.
pub const UNAVAILABLE_PROMPT: &'static str = "(unavailable/non-text)";

/// The prompt that takes the place of a turn that was steered.
pub open spec fn hard_steer_prompt(
    peer_id: Seq<char>,
    supersedes_turn_id: AmuxTurnId,
    original_prompt: Option<Seq<char>>,
    steering_text: Seq<char>,
) -> Seq<char> {
    "Active turn steered by peer `"@ + peer_id + "` (supersedes "@ + supersedes_turn_id.text()
        + "). Use the steer below to answer the original prompt.\n\nOriginal:\n"@ + (
    match original_prompt {
        Some(prompt) => prompt,
        None => UNAVAILABLE_PROMPT@,
    }) + "\n\nSteer:\n"@ + steering_text
}

/// The prompt that takes the place of a turn that was steered.
pub fn build_hard_steer_prompt(
    peer_id: &str,
    supersedes_turn_id: AmuxTurnId,
    original_prompt: Option<&str>,
    steering_text: &str,
) -> (prompt: String)
    ensures
        prompt@ == hard_steer_prompt(
            peer_id@,
            supersedes_turn_id,
            original_prompt.deep_view(),
            steering_text@,
        ),
{
    let mut prompt = "Active turn steered by peer `".to_owned();
    prompt.append(peer_id);
    prompt.append("` (supersedes ");
    prompt.append(supersedes_turn_id.formatted().as_str());
    prompt.append("). Use the steer below to answer the original prompt.\n\nOriginal:\n");
    match original_prompt {
        Some(original) => prompt.append(original),
        None => prompt.append(UNAVAILABLE_PROMPT),
    }
    prompt.append("\n\nSteer:\n");
    prompt.append(steering_text);
    prompt
}

/// What a control request asks for.
#[derive(Debug)]
pub struct ActiveControlParams {
    pub session_id: String,
    pub text: String,
}

/// The model of [`ActiveControlParams`].
#[verifier::ext_equal]
pub struct ControlView {
    pub session_id: Seq<char>,
    pub text: Seq<char>,
}

impl DeepView for ActiveControlParams {
    type V = ControlView;

    open spec fn deep_view(&self) -> ControlView {
        ControlView { session_id: self.session_id@, text: self.text@ }
    }
}

/// A refusal: the code and the message of the error response.
#[verifier::ext_equal]
pub struct Refusal {
    pub code: i64,
    pub message: Seq<char>,
}

/// The text that a control request carries, in `text` or in a `prompt` made of
/// text alone, without the white space around it.
pub open spec fn control_text(params: JsonView) -> Result<Seq<char>, Seq<char>> {
    let raw = match params.get("text"@) {
        Some(JsonView::String(text)) => Ok::<Seq<char>, Seq<char>>(text),
        Some(_) => Err("amux control params.text must be a string"@),
        None => match params.get("prompt"@) {
            Some(prompt) => match turn::prompt_text(prompt) {
                Some(text) => Ok(text),
                None => Err("amux control params.text or text-only params.prompt is required"@),
            },
            None => Err("amux control params.text or text-only params.prompt is required"@),
        },
    };
    match raw {
        Ok(text) => if text::trimmed(text).len() == 0 {
            Err("amux control text must be non-empty"@)
        } else {
            Ok(text::trimmed(text))
        },
        Err(message) => Err(message),
    }
}

impl SessionView {
    /// The session id of the active turn, or else the one the agent uses.
    pub open spec fn control_session_id(self) -> Option<Seq<char>> {
        match self.active_turn_session_id {
            Some(id) => Some(id),
            None => self.canonical_session_id,
        }
    }

    /// What a control request asks for, or why it is refused.
    pub open spec fn control_params(
        self,
        params: Option<JsonView>,
        require_active_turn: bool,
    ) -> Result<ControlView, Refusal> {
        let invalid = |message: Seq<char>| Err::<ControlView, Refusal>(
            Refusal { code: INVALID_PARAMS_ERROR_CODE, message },
        );
        if require_active_turn && self.active_turn_mux_id is None {
            Err(
                Refusal {
                    code: NO_ACTIVE_TURN_ERROR_CODE,
                    message: "amux active-turn control requires an active turn"@,
                },
            )
        } else if !(params matches Some(object) && object is Object) {
            invalid("amux control params must be an object"@)
        } else {
            let object = params->0;
            match control_text(object) {
                Err(message) => invalid(message),
                Ok(text) => match object.get("sessionId"@) {
                    Some(JsonView::String(requested)) => match self.control_session_id() {
                        Some(active) => if requested == active {
                            Ok(ControlView { session_id: requested, text })
                        } else {
                            invalid(
                                "amux control params.sessionId must match the active or canonical sessionId"@,
                            )
                        },
                        None => Ok(ControlView { session_id: requested, text }),
                    },
                    Some(_) => invalid(
                        "amux control params.sessionId must be a string when present"@,
                    ),
                    None => match self.control_session_id() {
                        Some(active) => Ok(ControlView { session_id: active, text }),
                        None => invalid("amux control could not determine an ACP sessionId"@),
                    },
                },
            }
        }
    }

    /// A refused request is answered with the refusal, and nothing else happens.
    pub open spec fn refuse(
        self,
        peer_id: Seq<char>,
        id: IdView,
        refusal: Refusal,
    ) -> SessionView {
        self.send_error_response(peer_id, id, refusal.code, refusal.message)
    }
}

fn read_control_text(params: &Json) -> (text: Result<String, &'static str>)
    ensures
        match text {
            Ok(text) => control_text(params@) == Ok::<Seq<char>, Seq<char>>(text@),
            Err(message) => control_text(params@) == Err::<Seq<char>, Seq<char>>(message@),
        },
{
    let raw = match params.get("text") {
        Some(Json::String(text)) => text.clone(),
        Some(_) => {
            return Err("amux control params.text must be a string");
        },
        None => match params.get("prompt") {
            Some(prompt) => match text_from_text_only_prompt(prompt) {
                Some(text) => text,
                None => {
                    return Err("amux control params.text or text-only params.prompt is required");
                },
            },
            None => {
                return Err("amux control params.text or text-only params.prompt is required");
            },
        },
    };
    let text = trim(&raw);
    if text.as_str().unicode_len() == 0 {
        Err("amux control text must be non-empty")
    } else {
        Ok(text)
    }
}

/// How many prompts of kind `Queue` there are.
pub open spec fn queue_count(prompts: Seq<QueuedPromptView>) -> nat
    decreases prompts.len(),
{
    if prompts.len() == 0 {
        0
    } else {
        queue_count(prompts.drop_last()) + if prompts.last().kind is Queue {
            1nat
        } else {
            0nat
        }
    }
}

/// Whether a prompt waits that takes the place of a turn.
pub open spec fn steer_pending(prompts: Seq<QueuedPromptView>) -> bool {
    exists|i: int| 0 <= i < prompts.len() && (#[trigger] prompts[i]).kind is HardSteer
}

/// The first prompt that has the given queue item id, or the number of prompts.
pub open spec fn queue_position(prompts: Seq<QueuedPromptView>, queue_item_id: Seq<char>) -> int
    decreases prompts.len(),
{
    if prompts.len() == 0 || prompts[0].queue_item_id == Some(queue_item_id) {
        0
    } else {
        1 + queue_position(prompts.drop_first(), queue_item_id)
    }
}

/// The position that scanning from the front stops at is [`queue_position`].
proof fn lemma_position_is(prompts: Seq<QueuedPromptView>, queue_item_id: Seq<char>, at: int)
    requires
        0 <= at <= prompts.len(),
        forall|i: int| 0 <= i < at ==> (#[trigger] prompts[i]).queue_item_id != Some(queue_item_id),
        at < prompts.len() ==> prompts[at].queue_item_id == Some(queue_item_id),
    ensures
        queue_position(prompts, queue_item_id) == at,
    decreases prompts.len(),
{
    if at > 0 {
        let rest = prompts.drop_first();
        assert forall|i: int| 0 <= i < at - 1 implies (#[trigger] rest[i]).queue_item_id != Some(
            queue_item_id,
        ) by {
            assert(rest[i] == prompts[i + 1]);
        }
        lemma_position_is(rest, queue_item_id, at - 1);
    }
}

/// The id of the queue item with the given number.
pub open spec fn queue_item_text(number: u64) -> Seq<char> {
    "q-"@ + text::decimal_of(number as nat)
}

/// The answer to a request that queued or unqueued a prompt.
pub open spec fn queue_answer(queue_item_id: Seq<char>, status: Seq<char>) -> JsonView {
    JsonView::object().field("queueItemId"@, JsonView::String(queue_item_id)).field(
        "status"@,
        JsonView::String(status),
    )
}

fn build_queue_answer(queue_item_id: &str, status: &str) -> (answer: Json)
    ensures
        answer@ == queue_answer(queue_item_id@, status@),
{
    Json::object().field("queueItemId", Json::string(queue_item_id)).field(
        "status",
        Json::string(status),
    )
}

/// The queue item that a request to unqueue names, or why it names none.
pub open spec fn unqueue_target(params: Option<JsonView>) -> Result<Seq<char>, Seq<char>> {
    match params {
        Some(JsonView::Object(_)) => match params->0.get_str("queueItemId"@) {
            Some(raw) => if text::trimmed(raw).len() == 0 {
                Err("amux/unqueue_prompt params.queueItemId must be non-empty"@)
            } else {
                Ok(text::trimmed(raw))
            },
            None => Err("amux/unqueue_prompt params.queueItemId must be a string"@),
        },
        _ => Err("amux/unqueue_prompt params must be an object"@),
    }
}

fn read_unqueue_target(params: &Option<Json>) -> (target: Result<String, &'static str>)
    ensures
        match target {
            Ok(id) => unqueue_target(params.deep_view()) == Ok::<Seq<char>, Seq<char>>(id@),
            Err(message) => unqueue_target(params.deep_view()) == Err::<Seq<char>, Seq<char>>(
                message@,
            ),
        },
{
    let object = match params {
        Some(object) => object,
        None => {
            return Err("amux/unqueue_prompt params must be an object");
        },
    };
    if !object.is_object() {
        return Err("amux/unqueue_prompt params must be an object");
    }
    match object.get_str("queueItemId") {
        Some(raw) => {
            let id = trim(raw);
            if id.as_str().unicode_len() == 0 {
                Err("amux/unqueue_prompt params.queueItemId must be non-empty")
            } else {
                Ok(id)
            }
        },
        None => Err("amux/unqueue_prompt params.queueItemId must be a string"),
    }
}

impl SessionView {
    /// A prompt joins the end of the queue, and the peers are told.
    pub open spec fn enqueue(self, peer_id: Seq<char>, control: ControlView) -> SessionView {
        let queue_item_id = queue_item_text(self.next_queue_item_id);
        let (peer_name, role) = self.peer_labels(peer_id);
        SessionView {
            next_queue_item_id: bump(self.next_queue_item_id),
            queued_prompts: self.queued_prompts.push(
                QueuedPromptView {
                    queue_item_id: Some(queue_item_id),
                    peer_id,
                    session_id: control.session_id,
                    prompt_text: control.text,
                    kind: QueuedPromptKind::Queue,
                },
            ),
            ..self
        }.broadcast(
            json::json_text(
                amux::queue_item_added_frame(
                    self.session_id,
                    queue_item_id,
                    peer_id,
                    peer_name,
                    role,
                    control.text,
                ),
            ),
        )
    }

    /// `amux/queue_prompt`: the prompt is queued, and submitted at once where no
    /// turn is active.
    pub open spec fn handle_amux_queue_prompt_request(
        self,
        peer_id: Seq<char>,
        req: RequestView,
    ) -> (SessionView, Option<Seq<u8>>) {
        match self.control_params(req.params, false) {
            Err(refusal) => (self.refuse(peer_id, req.id, refusal), None),
            Ok(control) => if queue_count(self.queued_prompts) >= MAX_MUX_QUEUE_PROMPTS {
                (
                    self.send_error_response(
                        peer_id,
                        req.id,
                        QUEUE_FULL_ERROR_CODE,
                        "queue full"@,
                    ),
                    None,
                )
            } else {
                let queued = self.enqueue(peer_id, control);
                let (after, write) = if self.active_turn_mux_id is None {
                    queued.submit_next_queued_prompt()
                } else {
                    (queued, None)
                };
                let status = if write is Some {
                    "submitted"@
                } else {
                    "queued"@
                };
                (
                    after.send_result_response(
                        peer_id,
                        req.id,
                        queue_answer(queue_item_text(self.next_queue_item_id), status),
                    ),
                    write,
                )
            },
        }
    }

    /// `amux/unqueue_prompt`: a prompt that waits is dropped.
    pub open spec fn handle_amux_unqueue_prompt_request(
        self,
        peer_id: Seq<char>,
        req: RequestView,
    ) -> SessionView {
        match unqueue_target(req.params) {
            Err(message) => self.send_error_response(
                peer_id,
                req.id,
                INVALID_PARAMS_ERROR_CODE,
                message,
            ),
            Ok(queue_item_id) => {
                let at = queue_position(self.queued_prompts, queue_item_id);
                if at < self.queued_prompts.len() {
                    SessionView {
                        queued_prompts: self.queued_prompts.remove(at),
                        ..self
                    }.broadcast(
                        json::json_text(
                            amux::queue_item_removed_frame(self.session_id, queue_item_id, peer_id),
                        ),
                    ).send_result_response(
                        peer_id,
                        req.id,
                        queue_answer(queue_item_id, "removed"@),
                    )
                } else {
                    self.send_error_response(
                        peer_id,
                        req.id,
                        INVALID_PARAMS_ERROR_CODE,
                        "queue item not found"@,
                    )
                }
            },
        }
    }

    /// A prompt goes to the front of the queue.
    pub open spec fn push_front(self, item: QueuedPromptView) -> SessionView {
        SessionView { queued_prompts: self.queued_prompts.insert(0, item), ..self }
    }

    /// The peers are told that a peer steered.
    pub open spec fn announce_steer(
        self,
        peer_id: Seq<char>,
        mode: Seq<char>,
        turn_id: AmuxTurnId,
        text: Seq<char>,
    ) -> SessionView {
        let (peer_name, role) = self.peer_labels(peer_id);
        self.broadcast(
            json::json_text(
                steer_frame(self.session_id, mode, peer_id, peer_name, role, turn_id, text),
            ),
        )
    }

    /// Steering with no turn active: the text is the next prompt.
    pub open spec fn handle_amux_idle_steer_request(
        self,
        peer_id: Seq<char>,
        id: IdView,
        control: ControlView,
    ) -> (SessionView, Option<Seq<u8>>) {
        let turn_id = AmuxTurnId(self.next_amux_turn_id);
        let (submitted, write) = self.announce_steer(
            peer_id,
            "prompt"@,
            turn_id,
            control.text,
        ).push_front(
            QueuedPromptView {
                queue_item_id: None,
                peer_id,
                session_id: control.session_id,
                prompt_text: control.text,
                kind: QueuedPromptKind::Prompt,
            },
        ).submit_next_queued_prompt();
        (
            submitted.send_result_response(
                peer_id,
                id,
                JsonView::object()
                    .field("accepted"@, JsonView::Bool(true))
                    .field("mode"@, JsonView::String("prompt"@))
                    .field("status"@, JsonView::String("submitted"@))
                    .field("amuxTurnId"@, turn_id.json()),
            ),
            write,
        )
    }

    /// Whose turn is active.
    pub open spec fn turn_owner(self, mux_id: u64) -> Option<Seq<char>> {
        match assoc::lookup(self.pending, mux_id) {
            Some(pending) => Some(pending.peer_id),
            None => None,
        }
    }

    /// Steering the active turn: it is cancelled, and a prompt that holds it and
    /// the steer takes its place once the agent has settled.
    pub open spec fn hard_steer(
        self,
        peer_id: Seq<char>,
        id: IdView,
        control: ControlView,
        mux_id: u64,
        turn_id: AmuxTurnId,
        active_session_id: Seq<char>,
    ) -> (SessionView, Option<Seq<u8>>) {
        let driver = match self.turn_owner(mux_id) {
            Some(owner) => owner,
            None => peer_id,
        };
        let steered = self.announce_steer(peer_id, "hard"@, turn_id, control.text).broadcast(
            json::json_text(
                amux::turn_cancelled_frame(
                    self.session_id,
                    turn_id,
                    peer_id,
                    driver,
                    Some("hard_steer"@),
                ),
            ),
        ).push_front(
            QueuedPromptView {
                queue_item_id: None,
                peer_id,
                session_id: control.session_id,
                prompt_text: hard_steer_prompt(
                    peer_id,
                    turn_id,
                    self.active_turn_prompt_text,
                    control.text,
                ),
                kind: QueuedPromptKind::HardSteer { supersedes_turn_id: turn_id },
            },
        ).send_result_response(
            peer_id,
            id,
            JsonView::object()
                .field("accepted"@, JsonView::Bool(true))
                .field("mode"@, JsonView::String("hard"@))
                .field("supersedesTurnId"@, turn_id.json()),
        );
        (steered, Some(json::json_text(session_cancel_frame(active_session_id))))
    }

    /// `amux/steer_active_turn`.
    pub open spec fn handle_amux_steer_request(
        self,
        peer_id: Seq<char>,
        req: RequestView,
    ) -> (SessionView, Option<Seq<u8>>) {
        match self.control_params(req.params, false) {
            Err(refusal) => (self.refuse(peer_id, req.id, refusal), None),
            Ok(control) => match self.active_turn_mux_id {
                None => self.handle_amux_idle_steer_request(peer_id, req.id, control),
                Some(mux_id) => if steer_pending(self.queued_prompts) {
                    (
                        self.send_error_response(
                            peer_id,
                            req.id,
                            NO_ACTIVE_TURN_ERROR_CODE,
                            "a hard steer is already pending for this turn"@,
                        ),
                        None,
                    )
                } else {
                    match self.active_amux_turn_id {
                        None => (self, None),
                        Some(turn_id) => match self.active_turn_session_id {
                            None => (
                                self.send_error_response(
                                    peer_id,
                                    req.id,
                                    INVALID_PARAMS_ERROR_CODE,
                                    "amux control could not determine the active ACP sessionId"@,
                                ),
                                None,
                            ),
                            Some(active_session_id) => self.hard_steer(
                                peer_id,
                                req.id,
                                control,
                                mux_id,
                                turn_id,
                                active_session_id,
                            ),
                        },
                    }
                },
            },
        }
    }
}

/// The frame that tells the peers of a steer.
pub open spec fn steer_frame(
    session_id: Seq<char>,
    mode: Seq<char>,
    peer_id: Seq<char>,
    peer_name: Option<Seq<char>>,
    role: Option<Seq<char>>,
    turn_id: AmuxTurnId,
    text: Seq<char>,
) -> JsonView {
    amux::frame(
        amux::METHOD_CONTROL_SUBMITTED@,
        JsonView::object()
            .field("roomId"@, JsonView::String(session_id))
            .field("kind"@, JsonView::String("steer"@))
            .field("mode"@, JsonView::String(mode))
            .field("peerId"@, JsonView::String(peer_id))
            .field_opt("peerName"@, json::text_opt(peer_name))
            .field_opt("role"@, json::text_opt(role))
            .field_opt("amuxTurnId"@, Some(turn_id.json()))
            .field("text"@, JsonView::String(text)),
    )
}

impl SessionInner {
    /// Reads what a control request asks for. Where it is refused, the peer gets
    /// the error and `None` is returned.
    pub fn parse_amux_active_turn_control_params(
        &mut self,
        peer_id: &str,
        req: &IncomingRequest,
        require_active_turn: bool,
    ) -> (control: Option<ActiveControlParams>)
        ensures
            match old(self)@.control_params(req@.params, require_active_turn) {
                Ok(asked) => control.deep_view() == Some(asked) && final(self)@ == old(self)@,
                Err(refusal) => control is None && final(self)@ == old(self)@.refuse(
                    peer_id@,
                    req@.id,
                    refusal,
                ),
            },
    {
        if require_active_turn && self.active_turn_mux_id.is_none() {
            self.send_error_response(
                peer_id,
                req.id.clone(),
                NO_ACTIVE_TURN_ERROR_CODE,
                "amux active-turn control requires an active turn",
            );
            return None;
        }
        let is_object = match &req.params {
            Some(params) => params.is_object(),
            None => false,
        };
        if !is_object {
            self.send_error_response(
                peer_id,
                req.id.clone(),
                INVALID_PARAMS_ERROR_CODE,
                "amux control params must be an object",
            );
            return None;
        }
        let params = req.params.as_ref().unwrap();
        let text = match read_control_text(params) {
            Ok(text) => text,
            Err(message) => {
                self.send_error_response(
                    peer_id,
                    req.id.clone(),
                    INVALID_PARAMS_ERROR_CODE,
                    message,
                );
                return None;
            },
        };
        let requested_session_id = match params.get("sessionId") {
            Some(Json::String(session_id)) => Some(session_id.clone()),
            Some(_) => {
                self.send_error_response(
                    peer_id,
                    req.id.clone(),
                    INVALID_PARAMS_ERROR_CODE,
                    "amux control params.sessionId must be a string when present",
                );
                return None;
            },
            None => None,
        };
        let active_session_id = match &self.active_turn_session_id {
            Some(session_id) => Some(session_id.clone()),
            None => self.canonical_session_id.clone(),
        };
        match (requested_session_id, active_session_id) {
            (Some(requested), Some(active)) => if requested == active {
                Some(ActiveControlParams { session_id: requested, text })
            } else {
                self.send_error_response(
                    peer_id,
                    req.id.clone(),
                    INVALID_PARAMS_ERROR_CODE,
                    "amux control params.sessionId must match the active or canonical sessionId",
                );
                None
            },
            (Some(requested), None) => Some(ActiveControlParams { session_id: requested, text }),
            (None, Some(active)) => Some(ActiveControlParams { session_id: active, text }),
            (None, None) => {
                self.send_error_response(
                    peer_id,
                    req.id.clone(),
                    INVALID_PARAMS_ERROR_CODE,
                    "amux control could not determine an ACP sessionId",
                );
                None
            },
        }
    }

    /// How many prompts of kind `Queue` wait.
    pub fn pending_queue_prompt_count(&self) -> (count: usize)
        ensures
            count == queue_count(self@.queued_prompts),
    {
        let ghost prompts = self@.queued_prompts;
        let mut count: usize = 0;
        let mut at: usize = 0;
        assert(prompts.take(0) =~= Seq::empty());
        while at < self.queued_prompts.len()
            invariant
                at <= self.queued_prompts@.len(),
                count <= at,
                prompts == self@.queued_prompts,
                count == queue_count(prompts.take(at as int)),
            decreases self.queued_prompts@.len() - at,
        {
            assert(prompts.take(at + 1).drop_last() =~= prompts.take(at as int));
            assert(prompts.take(at + 1).last() == self.queued_prompts@[at as int].deep_view());
            match self.queued_prompts[at].kind {
                QueuedPromptKind::Queue => {
                    count += 1;
                },
                _ => {},
            }
            at += 1;
        }
        assert(prompts.take(at as int) =~= prompts);
        count
    }

    /// Whether a prompt waits that takes the place of a turn.
    pub fn has_pending_hard_steer(&self) -> (found: bool)
        ensures
            found == steer_pending(self@.queued_prompts),
    {
        let mut at: usize = 0;
        while at < self.queued_prompts.len()
            invariant
                at <= self.queued_prompts@.len(),
                forall|i: int|
                    0 <= i < at ==> !((#[trigger] self@.queued_prompts[i]).kind is HardSteer),
            decreases self.queued_prompts@.len() - at,
        {
            assert(self@.queued_prompts[at as int] == self.queued_prompts@[at as int].deep_view());
            match self.queued_prompts[at].kind {
                QueuedPromptKind::HardSteer { .. } => {
                    return true;
                },
                _ => {},
            }
            at += 1;
        }
        false
    }

    /// Handles `amux/queue_prompt`. Returns what the agent is to be sent.
    pub fn handle_amux_queue_prompt_request(&mut self, peer_id: &str, req: IncomingRequest) -> (write:
        Option<Vec<u8>>)
        ensures
            final(self)@ == old(self)@.handle_amux_queue_prompt_request(peer_id@, req@).0,
            turn::bytes_opt(write) == old(self)@.handle_amux_queue_prompt_request(
                peer_id@,
                req@,
            ).1,
    {
        let control = match self.parse_amux_active_turn_control_params(peer_id, &req, false) {
            Some(control) => control,
            None => {
                return None;
            },
        };
        if self.pending_queue_prompt_count() >= MAX_MUX_QUEUE_PROMPTS {
            self.send_error_response(peer_id, req.id, QUEUE_FULL_ERROR_CODE, "queue full");
            return None;
        }
        let submit_immediately = self.active_turn_mux_id.is_none();
        let mut queue_item_id = "q-".to_owned();
        queue_item_id.append(text::decimal(self.next_queue_item_id).as_str());
        self.next_queue_item_id = bumped(self.next_queue_item_id);
        let (peer_name, role) = self.peer_labels(peer_id);
        let item = QueuedPrompt {
            queue_item_id: Some(queue_item_id.clone()),
            peer_id: peer_id.to_owned(),
            session_id: control.session_id,
            prompt_text: control.text.clone(),
            kind: QueuedPromptKind::Queue,
        };
        self.queued_prompts.push(item);
        assert(self.queued_prompts.deep_view() =~= old(self)@.queued_prompts.push(
            item.deep_view(),
        ));
        let frame = amux::queue_item_added(
            &self.session_id,
            &queue_item_id,
            peer_id,
            text_ref(&peer_name),
            text_ref(&role),
            &control.text,
        );
        self.broadcast(frame);
        let write = if submit_immediately {
            self.submit_next_queued_prompt()
        } else {
            None
        };
        let status = if write.is_some() {
            "submitted"
        } else {
            "queued"
        };
        self.send_result_response(peer_id, req.id, build_queue_answer(&queue_item_id, status));
        write
    }

    fn find_queued(&self, queue_item_id: &str) -> (at: usize)
        ensures
            at == queue_position(self@.queued_prompts, queue_item_id@),
            at <= self.queued_prompts@.len(),
    {
        let wanted = queue_item_id.to_owned();
        let mut at: usize = 0;
        while at < self.queued_prompts.len()
            invariant
                at <= self.queued_prompts@.len(),
                wanted@ == queue_item_id@,
                forall|i: int|
                    0 <= i < at ==> (#[trigger] self@.queued_prompts[i]).queue_item_id != Some(
                        queue_item_id@,
                    ),
            decreases self.queued_prompts@.len() - at,
        {
            assert(self@.queued_prompts[at as int] == self.queued_prompts@[at as int].deep_view());
            let found = match &self.queued_prompts[at].queue_item_id {
                Some(id) => *id == wanted,
                None => false,
            };
            if found {
                proof {
                    lemma_position_is(self@.queued_prompts, queue_item_id@, at as int);
                }
                return at;
            }
            at += 1;
        }
        proof {
            lemma_position_is(self@.queued_prompts, queue_item_id@, at as int);
        }
        at
    }

    /// Handles `amux/unqueue_prompt`. The agent is sent nothing.
    pub fn handle_amux_unqueue_prompt_request(&mut self, peer_id: &str, req: IncomingRequest) -> (
    write: Option<Vec<u8>>)
        ensures
            final(self)@ == old(self)@.handle_amux_unqueue_prompt_request(peer_id@, req@),
            write is None,
    {
        let queue_item_id = match read_unqueue_target(&req.params) {
            Ok(id) => id,
            Err(message) => {
                self.send_error_response(peer_id, req.id, INVALID_PARAMS_ERROR_CODE, message);
                return None;
            },
        };
        let at: usize = self.find_queued(&queue_item_id);
        if at >= self.queued_prompts.len() {
            self.send_error_response(
                peer_id,
                req.id,
                INVALID_PARAMS_ERROR_CODE,
                "queue item not found",
            );
            return None;
        }
        let _ = self.queued_prompts.remove(at);
        assert(self.queued_prompts.deep_view() =~= old(self)@.queued_prompts.remove(at as int));
        let frame = amux::queue_item_removed(&self.session_id, &queue_item_id, peer_id);
        self.broadcast(frame);
        self.send_result_response(peer_id, req.id, build_queue_answer(&queue_item_id, "removed"));
        None
    }

    fn push_front(&mut self, item: QueuedPrompt)
        ensures
            final(self)@ == old(self)@.push_front(item.deep_view()),
    {
        self.queued_prompts.insert(0, item);
        assert(self.queued_prompts.deep_view() =~= old(self)@.queued_prompts.insert(
            0,
            item.deep_view(),
        ));
    }

    fn announce_steer(&mut self, peer_id: &str, mode: &str, turn_id: AmuxTurnId, text: &str)
        ensures
            final(self)@ == old(self)@.announce_steer(peer_id@, mode@, turn_id, text@),
    {
        let (peer_name, role) = self.peer_labels(peer_id);
        let frame = amux::control_submitted(
            ControlSubmitted {
                room_id: &self.session_id,
                kind: "steer",
                mode,
                peer_id,
                peer_name: text_ref(&peer_name),
                role: text_ref(&role),
                amux_turn_id: Some(turn_id),
                text,
            },
        );
        self.broadcast(frame);
    }

    /// Handles `amux/steer_active_turn`. Returns what the agent is to be sent.
    pub fn handle_amux_steer_request(&mut self, peer_id: &str, req: IncomingRequest) -> (write: Option<
        Vec<u8>,
    >)
        ensures
            final(self)@ == old(self)@.handle_amux_steer_request(peer_id@, req@).0,
            turn::bytes_opt(write) == old(self)@.handle_amux_steer_request(peer_id@, req@).1,
    {
        let control = match self.parse_amux_active_turn_control_params(peer_id, &req, false) {
            Some(control) => control,
            None => {
                return None;
            },
        };
        let active_mux_id: u64 = match self.active_turn_mux_id {
            Some(mux_id) => mux_id,
            None => {
                return self.handle_amux_idle_steer_request(peer_id, req.id, control);
            },
        };
        if self.has_pending_hard_steer() {
            self.send_error_response(
                peer_id,
                req.id,
                NO_ACTIVE_TURN_ERROR_CODE,
                "a hard steer is already pending for this turn",
            );
            return None;
        }
        let supersedes_turn_id = match self.active_amux_turn_id {
            Some(turn_id) => turn_id,
            None => {
                return None;
            },
        };
        let active_session_id = match &self.active_turn_session_id {
            Some(session_id) => session_id.clone(),
            None => {
                self.send_error_response(
                    peer_id,
                    req.id,
                    INVALID_PARAMS_ERROR_CODE,
                    "amux control could not determine the active ACP sessionId",
                );
                return None;
            },
        };
        let original_driver = match table::get(&self.pending, &active_mux_id) {
            Some(pending) => pending.peer_id.clone(),
            None => peer_id.to_owned(),
        };
        let replacement_prompt = build_hard_steer_prompt(
            peer_id,
            supersedes_turn_id,
            text_ref(&self.active_turn_prompt_text),
            &control.text,
        );
        self.announce_steer(peer_id, "hard", supersedes_turn_id, &control.text);
        let frame = amux::turn_cancelled(
            &self.session_id,
            supersedes_turn_id,
            peer_id,
            &original_driver,
            Some("hard_steer"),
        );
        self.broadcast(frame);
        self.push_front(
            QueuedPrompt {
                queue_item_id: None,
                peer_id: peer_id.to_owned(),
                session_id: control.session_id,
                prompt_text: replacement_prompt,
                kind: QueuedPromptKind::HardSteer { supersedes_turn_id },
            },
        );
        let answer = Json::object()
            .field("accepted", Json::Bool(true))
            .field("mode", Json::string("hard"))
            .field("supersedesTurnId", Json::String(supersedes_turn_id.formatted()));
        self.send_result_response(peer_id, req.id, answer);
        Some(build_session_cancel(&active_session_id))
    }

    /// Handles a steer where no turn is active.
    pub fn handle_amux_idle_steer_request(
        &mut self,
        peer_id: &str,
        req_id: Id,
        control: ActiveControlParams,
    ) -> (write: Option<Vec<u8>>)
        ensures
            final(self)@ == old(self)@.handle_amux_idle_steer_request(
                peer_id@,
                req_id@,
                control.deep_view(),
            ).0,
            turn::bytes_opt(write) == old(self)@.handle_amux_idle_steer_request(
                peer_id@,
                req_id@,
                control.deep_view(),
            ).1,
    {
        let turn_id = AmuxTurnId(self.next_amux_turn_id);
        self.announce_steer(peer_id, "prompt", turn_id, &control.text);
        self.push_front(
            QueuedPrompt {
                queue_item_id: None,
                peer_id: peer_id.to_owned(),
                session_id: control.session_id,
                prompt_text: control.text,
                kind: QueuedPromptKind::Prompt,
            },
        );
        let write = self.submit_next_queued_prompt();
        let answer = Json::object()
            .field("accepted", Json::Bool(true))
            .field("mode", Json::string("prompt"))
            .field("status", Json::string("submitted"))
            .field("amuxTurnId", Json::String(turn_id.formatted()));
        self.send_result_response(peer_id, req_id, answer);
        write
    }
}

} // verus!

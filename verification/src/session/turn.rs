//! Turns: how a prompt opens one, what the peers are told of it, and how the
//! next waiting prompt is submitted.

use crate::assoc;
use crate::json;
use crate::json::{Json, JsonView};
use crate::protocol::amux;
use crate::protocol::amux::AmuxTurnId;
use crate::protocol::jsonrpc::{Id, IncomingRequest, JsonRpcVersion, RequestView};
use crate::protocol::session_update;
use crate::session::metadata::{inject_request_trace_metadata, RequestTrace, TraceView};
use crate::session::state::{
    bump, bumped, wire_id, PendingRequest, PendingView, QueuedPromptKind, QueuedPromptView,
    SessionInner, SessionView,
};
use crate::table;
use crate::text::same_text;
use vstd::prelude::*;

verus! {

/// The text of one block of a prompt, where the block is text.
pub open spec fn block_text(block: JsonView) -> Option<Seq<char>> {
    if block.get_str("type"@) == Some("text"@) {
        block.get_str("text"@)
    } else {
        None
    }
}

/// The text of some blocks, one after the other, where all of them are text.
pub open spec fn blocks_text(blocks: Seq<JsonView>) -> Option<Seq<char>>
    decreases blocks.len(),
{
    if blocks.len() == 0 {
        Some(Seq::empty())
    } else {
        match (blocks_text(blocks.drop_last()), block_text(blocks.last())) {
            (Some(front), Some(text)) => Some(front + text),
            _ => None,
        }
    }
}

/// The text of a prompt that is made of text alone.
pub open spec fn prompt_text(prompt: JsonView) -> Option<Seq<char>> {
    match prompt {
        JsonView::Array(blocks) => if blocks.len() == 0 {
            None
        } else {
            blocks_text(blocks)
        },
        _ => None,
    }
}

proof fn lemma_blocks_text_fails(blocks: Seq<JsonView>, at: int)
    requires
        0 <= at <= blocks.len(),
        blocks_text(blocks.take(at)) is None,
    ensures
        blocks_text(blocks) is None,
    decreases blocks.len() - at,
{
    if at < blocks.len() {
        assert(blocks.take(at + 1).drop_last() =~= blocks.take(at));
        lemma_blocks_text_fails(blocks, at + 1);
    } else {
        assert(blocks.take(at) =~= blocks);
    }
}

fn read_block_text(block: &Json) -> (text: Option<&str>)
    ensures
        text.deep_view() == block_text(block@),
{
    match block.get_str("type") {
        Some(kind) => if same_text(kind, "text") {
            block.get_str("text")
        } else {
            None
        },
        None => None,
    }
}

/// The text of a prompt that is made of text alone.
pub fn text_from_text_only_prompt(prompt: &Json) -> (text: Option<String>)
    ensures
        text.deep_view() == prompt_text(prompt@),
{
    match prompt {
        Json::Array(blocks) => {
            if blocks.len() == 0 {
                return None;
            }
            let ghost documents = prompt@->Array_0;
            let mut text = String::new();
            let mut at: usize = 0;
            assert(documents.take(0) =~= Seq::empty());
            while at < blocks.len()
                invariant
                    at <= blocks@.len(),
                    documents.len() == blocks@.len(),
                    forall|i: int|
                        0 <= i < blocks@.len() ==> documents[i] == (#[trigger] blocks@[i])@,
                    documents == prompt@->Array_0,
                    prompt@ is Array,
                    blocks@.len() > 0,
                    blocks_text(documents.take(at as int)) == Some(text@),
                decreases blocks@.len() - at,
            {
                assert(documents.take(at + 1).drop_last() =~= documents.take(at as int));
                match read_block_text(&blocks[at]) {
                    Some(piece) => {
                        text.append(piece);
                    },
                    None => {
                        proof {
                            lemma_blocks_text_fails(documents, at + 1);
                        }
                        return None;
                    },
                }
                at += 1;
            }
            assert(documents.take(at as int) =~= documents);
            Some(text)
        },
        _ => None,
    }
}

/// The prompt in the parameters of a request, or null.
pub open spec fn prompt_of(params: Option<JsonView>) -> JsonView {
    match params {
        Some(params) => match params.get("prompt"@) {
            Some(prompt) => prompt,
            None => JsonView::Null,
        },
        None => JsonView::Null,
    }
}

fn read_prompt(params: &Option<Json>) -> (prompt: Json)
    ensures
        prompt@ == prompt_of(params.deep_view()),
{
    match params {
        Some(params) => match params.get("prompt") {
            Some(prompt) => prompt.clone(),
            None => Json::Null,
        },
        None => Json::Null,
    }
}

/// The stop reason in the result of a prompt, or null.
pub open spec fn stop_reason_of(result: Option<JsonView>) -> JsonView {
    match result {
        Some(result) => match result.get("stopReason"@) {
            Some(reason) => reason,
            None => JsonView::Null,
        },
        None => JsonView::Null,
    }
}

/// The stop reason in the result of a prompt, or null.
pub fn read_stop_reason(result: &Option<Json>) -> (reason: Json)
    ensures
        reason@ == stop_reason_of(result.deep_view()),
{
    match result {
        Some(result) => match result.get("stopReason") {
            Some(reason) => reason.clone(),
            None => Json::Null,
        },
        None => Json::Null,
    }
}

/// The parameters of a prompt that the mux itself submits.
pub open spec fn queued_params(session_id: Seq<char>, text: Seq<char>) -> JsonView {
    JsonView::object().field("sessionId"@, JsonView::String(session_id)).field(
        "prompt"@,
        JsonView::Array(
            seq![
                JsonView::object().field("type"@, JsonView::String("text"@)).field(
                    "text"@,
                    JsonView::String(text),
                ),
            ],
        ),
    )
}

fn build_queued_params(session_id: &str, text: &str) -> (params: Json)
    ensures
        params@ == queued_params(session_id@, text@),
{
    let block = Json::object().field("type", Json::string("text")).field(
        "text",
        Json::string(text),
    );
    let mut blocks: Vec<Json> = Vec::new();
    blocks.push(block);
    assert(blocks.deep_view() =~= seq![block@]);
    Json::object().field("sessionId", Json::string(session_id)).field("prompt", Json::array(blocks))
}

impl QueuedPromptView {
    /// The turn that the prompt takes the place of.
    pub open spec fn supersedes(self) -> Option<AmuxTurnId> {
        match self.kind {
            QueuedPromptKind::HardSteer { supersedes_turn_id } => Some(supersedes_turn_id),
            _ => None,
        }
    }
}

impl SessionView {
    /// The parameters of a request as the agent gets them: with who sent it,
    /// where the session passes that on.
    pub open spec fn outgoing_params(
        self,
        peer_id: Seq<char>,
        mux_id: u64,
        amux_turn_id: Option<AmuxTurnId>,
        params: Option<JsonView>,
    ) -> Option<JsonView> {
        if self.meta_propagate {
            TraceView {
                peer_id,
                peer_name: self.peer_labels(peer_id).0,
                role: self.peer_labels(peer_id).1,
                mux_id,
                amux_turn_id,
            }.traced(params)
        } else {
            params
        }
    }

    /// The peers are told that a turn started.
    pub open spec fn emit_turn_started(
        self,
        peer_id: Seq<char>,
        turn_id: AmuxTurnId,
        params: Option<JsonView>,
        supersedes_turn_id: Option<AmuxTurnId>,
    ) -> SessionView {
        let content = prompt_of(params);
        let (peer_name, role) = self.peer_labels(peer_id);
        let told = self.broadcast(
            json::json_text(
                amux::turn_started_frame(
                    self.session_id,
                    turn_id,
                    peer_id,
                    peer_name,
                    role,
                    content,
                    supersedes_turn_id,
                ),
            ),
        );
        match told.acp_session_id() {
            Some(acp_id) => told.broadcast(
                json::json_text(
                    session_update::prompt_received_frame(acp_id, content, peer_id, peer_name),
                ),
            ),
            None => told,
        }
    }

    /// The peers are told that a turn ended.
    pub open spec fn emit_turn_complete(
        self,
        turn_id: AmuxTurnId,
        result: Option<JsonView>,
    ) -> SessionView {
        let reason = stop_reason_of(result);
        let told = self.broadcast(
            json::json_text(amux::turn_complete_frame(self.session_id, turn_id, reason)),
        );
        match told.acp_session_id() {
            Some(acp_id) => told.broadcast(
                json::json_text(session_update::turn_complete_frame(acp_id, reason)),
            ),
            None => told,
        }
    }

    /// What the agent is sent for the waiting prompt `item`.
    pub open spec fn queued_request(self, item: QueuedPromptView) -> RequestView {
        RequestView {
            id: wire_id(self.next_mux_id),
            method: "session/prompt"@,
            params: self.outgoing_params(
                item.peer_id,
                self.next_mux_id,
                Some(AmuxTurnId(self.next_amux_turn_id)),
                Some(queued_params(item.session_id, item.prompt_text)),
            ),
        }
    }

    /// The waiting prompt `item` becomes the active turn.
    pub open spec fn open_queued_turn(self, item: QueuedPromptView) -> SessionView {
        let turn_id = AmuxTurnId(self.next_amux_turn_id);
        let opened = SessionView {
            next_mux_id: bump(self.next_mux_id),
            next_amux_turn_id: bump(self.next_amux_turn_id),
            pending: assoc::store(
                self.pending,
                self.next_mux_id,
                PendingView {
                    peer_id: item.peer_id,
                    original_id: wire_id(self.next_mux_id),
                    handshake: None,
                    decorate_session_list: false,
                    deliver_response: false,
                    queue_item_id: item.queue_item_id,
                },
            ),
            active_turn_mux_id: Some(self.next_mux_id),
            active_amux_turn_id: Some(turn_id),
            active_turn_session_id: Some(item.session_id),
            active_turn_prompt_text: Some(item.prompt_text),
            ..self
        }.emit_turn_started(
            item.peer_id,
            turn_id,
            self.queued_request(item).params,
            item.supersedes(),
        );
        match item.queue_item_id {
            Some(queue_item_id) => opened.broadcast(
                json::json_text(
                    amux::queue_item_submitted_frame(self.session_id, queue_item_id, turn_id),
                ),
            ),
            None => opened,
        }
    }

    /// The first waiting prompt is submitted. The second part is what the agent
    /// is sent.
    pub open spec fn submit_next_queued_prompt(self) -> (SessionView, Option<Seq<u8>>) {
        if self.queued_prompts.len() == 0 {
            (self, None)
        } else {
            let item = self.queued_prompts[0];
            let popped = SessionView {
                queued_prompts: self.queued_prompts.drop_first(),
                ..self
            }.note_driving_subscriber(item.peer_id);
            (
                popped.open_queued_turn(item),
                Some(json::json_text(popped.queued_request(item).json())),
            )
        }
    }
}

/// The text of an optional frame.
pub open spec fn bytes_opt(bytes: Option<Vec<u8>>) -> Option<Seq<u8>> {
    match bytes {
        Some(bytes) => Some(bytes@),
        None => None,
    }
}

/// A borrowed optional text.
pub fn text_ref(text: &Option<String>) -> (borrowed: Option<&str>)
    ensures
        borrowed.deep_view() == text.deep_view(),
{
    match text {
        Some(text) => Some(text.as_str()),
        None => None,
    }
}

impl SessionInner {
    /// A request as the agent gets it.
    pub fn outgoing_request(
        &self,
        peer_id: &str,
        mux_id: u64,
        amux_turn_id: Option<AmuxTurnId>,
        req: IncomingRequest,
    ) -> (outgoing: IncomingRequest)
        ensures
            outgoing@ == (RequestView {
                id: req@.id,
                method: req@.method,
                params: self@.outgoing_params(peer_id@, mux_id, amux_turn_id, req@.params),
            }),
    {
        if self.meta_propagate {
            let (peer_name, role) = self.peer_labels(peer_id);
            inject_request_trace_metadata(
                req,
                RequestTrace {
                    peer_id,
                    peer_name: text_ref(&peer_name),
                    role: text_ref(&role),
                    mux_id,
                    amux_turn_id,
                },
            )
        } else {
            req
        }
    }

    /// Tells the peers that a turn started.
    pub fn emit_turn_started(
        &mut self,
        peer_id: &str,
        turn_id: AmuxTurnId,
        params: &Option<Json>,
        supersedes_turn_id: Option<AmuxTurnId>,
    )
        ensures
            final(self)@ == old(self)@.emit_turn_started(
                peer_id@,
                turn_id,
                params.deep_view(),
                supersedes_turn_id,
            ),
    {
        let content = read_prompt(params);
        let (peer_name, role) = self.peer_labels(peer_id);
        let frame = amux::turn_started(
            &self.session_id,
            turn_id,
            peer_id,
            text_ref(&peer_name),
            text_ref(&role),
            &content,
            supersedes_turn_id,
        );
        self.broadcast(frame);
        if let Some(acp_id) = self.acp_session_id() {
            let frame = session_update::prompt_received(
                &acp_id,
                &content,
                peer_id,
                text_ref(&peer_name),
            );
            self.broadcast(frame);
        }
    }

    /// Tells the peers that a turn ended.
    pub fn emit_turn_complete(&mut self, turn_id: AmuxTurnId, result: &Option<Json>)
        ensures
            final(self)@ == old(self)@.emit_turn_complete(turn_id, result.deep_view()),
    {
        let reason = read_stop_reason(result);
        let frame = amux::turn_complete(&self.session_id, turn_id, &reason);
        self.broadcast(frame);
        if let Some(acp_id) = self.acp_session_id() {
            let frame = session_update::turn_complete(&acp_id, &reason);
            self.broadcast(frame);
        }
    }

    /// Submits the first waiting prompt. Returns what the agent is to be sent.
    pub fn submit_next_queued_prompt(&mut self) -> (write: Option<Vec<u8>>)
        ensures
            final(self)@ == old(self)@.submit_next_queued_prompt().0,
            bytes_opt(write) == old(self)@.submit_next_queued_prompt().1,
    {
        if self.queued_prompts.len() == 0 {
            return None;
        }
        let ghost waiting = self.queued_prompts@;
        let item = self.queued_prompts.remove(0);
        assert(self.queued_prompts.deep_view() =~= old(self)@.queued_prompts.drop_first()) by {
            assert(forall|i: int| 0 <= i < self.queued_prompts@.len() ==>
                #[trigger] self.queued_prompts@[i] == waiting[i + 1]);
        }
        self.note_driving_subscriber(&item.peer_id);

        let mux_id: u64 = self.next_mux_id;
        let turn_id = AmuxTurnId(self.next_amux_turn_id);
        let supersedes_turn_id = match item.kind {
            QueuedPromptKind::Prompt => None,
            QueuedPromptKind::Queue => None,
            QueuedPromptKind::HardSteer { supersedes_turn_id } => Some(supersedes_turn_id),
        };
        let req = IncomingRequest {
            jsonrpc: JsonRpcVersion,
            id: Id::Number(mux_id as i64),
            method: "session/prompt".to_owned(),
            params: Some(build_queued_params(&item.session_id, &item.prompt_text)),
        };
        let req = self.outgoing_request(&item.peer_id, mux_id, Some(turn_id), req);
        let out = req.to_json().to_vec();

        self.next_mux_id = bumped(self.next_mux_id);
        self.next_amux_turn_id = bumped(self.next_amux_turn_id);
        table::put(
            &mut self.pending,
            mux_id,
            PendingRequest {
                peer_id: item.peer_id.clone(),
                original_id: Id::Number(mux_id as i64),
                handshake: None,
                decorate_session_list: false,
                deliver_response: false,
                queue_item_id: item.queue_item_id.clone(),
            },
        );
        self.active_turn_mux_id = Some(mux_id);
        self.active_amux_turn_id = Some(turn_id);
        self.active_turn_session_id = Some(item.session_id.clone());
        self.active_turn_prompt_text = Some(item.prompt_text.clone());
        self.emit_turn_started(&item.peer_id, turn_id, &req.params, supersedes_turn_id);
        if let Some(queue_item_id) = &item.queue_item_id {
            let frame = amux::queue_item_submitted(&self.session_id, queue_item_id, turn_id);
            self.broadcast(frame);
        }
        Some(out)
    }
}

} // verus!

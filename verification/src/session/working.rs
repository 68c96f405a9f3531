//! How prompts are read, queued, steered and submitted, and what is told of it.

use crate::assoc;
use crate::json;
use crate::json::JsonView;
use crate::multiplex::subscriber::{DeliveryView, OutMsgView, SubscriberView};
use crate::protocol::amux;
use crate::protocol::amux::AmuxTurnId;
use crate::protocol::jsonrpc::{ErrorView, IdView, RequestView, ResponseView};
use crate::protocol::names::lemma_names;
use crate::protocol::session_update;
use crate::session::agent;
use crate::session::attach;
use crate::session::control;
use crate::session::control::{ControlView, Refusal};
use crate::session::hearing;
use crate::session::hearing::{only_to, open_peers, rounds, told};
use crate::session::marking;
use crate::session::metadata::TraceView;
use crate::session::passing;
use crate::session::passing::{labels, started_frames, with_update};
use crate::session::state;
use crate::session::state::{
    AgentReqState, PendingView, QueuedPromptKind, QueuedPromptView, SessionView,
};
use crate::session::turn;
use crate::text;
use vstd::prelude::*;

verus! {

/// Whether some blocks of a prompt are text, and these are their texts.
pub open spec fn texts_of(blocks: Seq<JsonView>, texts: Seq<Seq<char>>) -> bool {
    &&& blocks.len() == texts.len()
    &&& forall|i: int|
        #![trigger blocks[i]]
        #![trigger texts[i]]
        0 <= i < blocks.len() ==> blocks[i].get("type"@) == Some(JsonView::String("text"@))
            && blocks[i].get("text"@) == Some(JsonView::String(texts[i]))
}

/// The text of a prompt is the texts of all its blocks, joined in their order.
pub proof fn law_prompt_text_is_all_blocks(blocks: Seq<JsonView>, texts: Seq<Seq<char>>)
    requires
        texts_of(blocks, texts),
    ensures
        blocks.len() > 0 ==> turn::prompt_text(JsonView::Array(blocks)) == Some(texts.flatten()),
{
    lemma_blocks_text(blocks, texts);
    texts.lemma_flatten_and_flatten_alt_are_equivalent();
}

proof fn lemma_blocks_text(blocks: Seq<JsonView>, texts: Seq<Seq<char>>)
    requires
        texts_of(blocks, texts),
    ensures
        turn::blocks_text(blocks) == Some(texts.flatten_alt()),
    decreases blocks.len(),
{
    if blocks.len() > 0 {
        let (front, said) = (blocks.drop_last(), texts.drop_last());
        assert forall|i: int| 0 <= i < front.len() implies (#[trigger] front[i]).get("type"@)
            == Some(JsonView::String("text"@)) && front[i].get("text"@) == Some(
            JsonView::String(said[i]),
        ) by {
            assert(front[i] == blocks[i] && said[i] == texts[i]);
        }
        lemma_blocks_text(front, said);
        assert(blocks.last() == blocks[blocks.len() - 1]);
    }
}

/// A prompt with a block that is not text has no text, nor has one without blocks,
/// nor anything that is no list of blocks.
pub proof fn law_only_text_has_a_text(prompt: JsonView)
    ensures
        !(prompt is Array) ==> turn::prompt_text(prompt) is None,
        prompt == JsonView::Array(Seq::empty()) ==> turn::prompt_text(prompt) is None,
        prompt matches JsonView::Array(blocks) ==> forall|i: int|
            0 <= i < blocks.len() && !((#[trigger] blocks[i]).get("type"@) == Some(
                JsonView::String("text"@),
            ) && blocks[i].get("text"@) is Some && blocks[i].get("text"@)->0 is String)
                ==> turn::prompt_text(prompt) is None,
{
    if let JsonView::Array(blocks) = prompt {
        assert forall|i: int|
            0 <= i < blocks.len() && !((#[trigger] blocks[i]).get("type"@) == Some(
                JsonView::String("text"@),
            ) && blocks[i].get("text"@) is Some && blocks[i].get("text"@)->0
                is String) implies turn::prompt_text(prompt) is None by {
            lemma_no_text(blocks, i);
        }
    }
}

proof fn lemma_no_text(blocks: Seq<JsonView>, at: int)
    requires
        0 <= at < blocks.len(),
        turn::block_text(blocks[at]) is None,
    ensures
        turn::blocks_text(blocks) is None,
    decreases blocks.len(),
{
    if at < blocks.len() - 1 {
        assert(blocks.drop_last()[at] == blocks[at]);
        lemma_no_text(blocks.drop_last(), at);
    }
}

/// The text of a prompt made of some blocks followed by others is the text of the
/// ones followed by the text of the others.
pub proof fn law_prompt_texts_join(front: Seq<JsonView>, back: Seq<JsonView>)
    requires
        front.len() > 0,
        back.len() > 0,
    ensures
        turn::prompt_text(JsonView::Array(front + back)) == match (
            turn::prompt_text(JsonView::Array(front)),
            turn::prompt_text(JsonView::Array(back)),
        ) {
            (Some(a), Some(b)) => Some(a + b),
            _ => None,
        },
{
    lemma_blocks_join(front, back);
}

proof fn lemma_blocks_join(front: Seq<JsonView>, back: Seq<JsonView>)
    ensures
        turn::blocks_text(front + back) == match (
            turn::blocks_text(front),
            turn::blocks_text(back),
        ) {
            (Some(a), Some(b)) => Some(a + b),
            _ => None,
        },
    decreases back.len(),
{
    if back.len() > 0 {
        lemma_blocks_join(front, back.drop_last());
        assert((front + back).drop_last() =~= front + back.drop_last());
        if let (Some(a), Some(b), Some(c)) = (
            turn::blocks_text(front),
            turn::blocks_text(back.drop_last()),
            turn::block_text(back.last()),
        ) {
            assert((a + b) + c =~= a + (b + c));
        }
    } else {
        assert(front + back =~= front);
        if let Some(a) = turn::blocks_text(front) {
            assert(a + Seq::<char>::empty() =~= a);
        }
    }
}

/// The session id that a control is about where it names none: that of the active
/// turn, or else the one that the agent uses.
pub open spec fn current_id(session: SessionView) -> Option<Seq<char>> {
    if session.active_turn_session_id is Some {
        session.active_turn_session_id
    } else {
        session.canonical_session_id
    }
}

/// Whether the parameters of a control carry this text: in `text`, or else in a
/// `prompt` whose blocks are all text.
pub open spec fn carries(params: JsonView, raw: Seq<char>) -> bool {
    match params.get("text"@) {
        Some(text) => text == JsonView::String(raw),
        None => params.get("prompt"@) matches Some(JsonView::Array(blocks)) && blocks.len() > 0
            && exists|texts: Seq<Seq<char>>| #[trigger]
            texts_of(blocks, texts) && raw == texts.flatten(),
    }
}

/// Whether the parameters of a control ask for this text in this session.
pub open spec fn asks(
    session: SessionView,
    params: JsonView,
    raw: Seq<char>,
    session_id: Seq<char>,
) -> bool {
    &&& params is Object
    &&& carries(params, raw)
    &&& text::trimmed(raw).len() > 0
    &&& match params.get("sessionId"@) {
        Some(named) => named == JsonView::String(session_id) && (current_id(session) is None
            || current_id(session) == Some(session_id)),
        None => current_id(session) == Some(session_id),
    }
}

/// A control gets what it asks for: its whole text, without the white space around
/// it, for the session that it names or else the current one.
pub proof fn law_control_is_read(
    session: SessionView,
    params: JsonView,
    raw: Seq<char>,
    session_id: Seq<char>,
)
    requires
        asks(session, params, raw, session_id),
    ensures
        session.control_params(Some(params), false) == Ok::<_, Refusal>(
            ControlView { session_id, text: text::trimmed(raw) },
        ),
{
    if params.get("text"@) is None {
        let blocks = params.get("prompt"@)->0->Array_0;
        let texts = choose|texts: Seq<Seq<char>>| #[trigger]
            texts_of(blocks, texts) && raw == texts.flatten();
        law_prompt_text_is_all_blocks(blocks, texts);
    }
}

/// Nothing else is read as a control: where one is accepted, it asks for what is
/// read.
pub proof fn law_only_what_is_asked_is_read(session: SessionView, params: Option<JsonView>)
    requires
        session.control_params(params, false) is Ok,
    ensures
        params is Some,
        exists|raw: Seq<char>| #[trigger]
            asks(
                session,
                params->0,
                raw,
                session.control_params(params, false)->Ok_0.session_id,
            ) && session.control_params(params, false)->Ok_0.text == text::trimmed(raw),
{
    let object = params->0;
    let read = session.control_params(params, false)->Ok_0;
    match object.get("text"@) {
        Some(JsonView::String(raw)) => {
            assert(asks(session, object, raw, read.session_id));
        },
        _ => {
            let prompt = object.get("prompt"@)->0;
            let raw = turn::prompt_text(prompt)->0;
            let blocks = prompt->Array_0;
            let texts = lemma_texts(blocks);
            law_prompt_text_is_all_blocks(blocks, texts);
            assert(texts_of(blocks, texts));
            assert(asks(session, object, raw, read.session_id));
        },
    }
}

proof fn lemma_texts(blocks: Seq<JsonView>) -> (texts: Seq<Seq<char>>)
    requires
        turn::blocks_text(blocks) is Some,
    ensures
        texts_of(blocks, texts),
    decreases blocks.len(),
{
    if blocks.len() == 0 {
        Seq::empty()
    } else {
        let front = lemma_texts(blocks.drop_last());
        let texts = front.push(turn::block_text(blocks.last())->0);
        assert forall|i: int|
            #![trigger blocks[i]]
            #![trigger texts[i]]
            0 <= i < blocks.len() implies blocks[i].get("type"@) == Some(
            JsonView::String("text"@),
        ) && blocks[i].get("text"@) == Some(JsonView::String(texts[i])) by {
            if i < front.len() {
                assert(blocks.drop_last()[i] == blocks[i] && front[i] == texts[i]);
            }
        }
        texts
    }
}

/// A control that is refused changes nothing: the peer that sent it gets an error
/// under its own id, and nobody else hears of it.
pub proof fn law_refused_control_changes_nothing(
    session: SessionView,
    peer_id: Seq<char>,
    req: RequestView,
)
    requires
        assoc::distinct(session.subscribers),
        session.control_params(req.params, false) is Err,
    ensures
        session.control_params(req.params, false)->Err_0.code == -32602,
        ({
            let refusal = session.control_params(req.params, false)->Err_0;
            let error = error_answer(req.id, refusal.code, refusal.message);
            let expected = (
                SessionView {
                    outbox: session.outbox + only_to(session, peer_id, error),
                    ..session
                },
                None::<Seq<u8>>,
            );
            &&& session.handle_amux_queue_prompt_request(peer_id, req) == expected
            &&& session.handle_amux_steer_request(peer_id, req) == expected
        }),
{
    let refusal = session.control_params(req.params, false)->Err_0;
    hearing::lemma_reach(
        session,
        peer_id,
        error_answer(req.id, refusal.code, refusal.message),
    );
}

/// A control that is refused is told the first thing that is wrong with it: its
/// parameters, then its text, then its session.
pub proof fn law_refused_control_is_told_why(session: SessionView, params: JsonView, raw: Seq<char>)
    ensures
        ({
            let why = |message: Seq<char>|
                session.control_params(Some(params), false) == Err::<ControlView, _>(
                    Refusal { code: (-32602) as i64, message },
                );
            let good = params is Object && carries(params, raw) && text::trimmed(raw).len() > 0;
            &&& session.control_params(None, false) == Err::<ControlView, _>(
                Refusal {
                    code: (-32602) as i64,
                    message: "amux control params must be an object"@,
                },
            )
            &&& !(params is Object) ==> why("amux control params must be an object"@)
            &&& params is Object && (params.get("text"@) matches Some(text) && !(text is String))
                ==> why("amux control params.text must be a string"@)
            &&& params is Object && params.get("text"@) is None && (params.get("prompt"@) is None
                || turn::prompt_text(params.get("prompt"@)->0) is None) ==> why(
                "amux control params.text or text-only params.prompt is required"@,
            )
            &&& params is Object && carries(params, raw) && text::trimmed(raw).len() == 0 ==> why(
                "amux control text must be non-empty"@,
            )
            &&& good && (params.get("sessionId"@) matches Some(id) && !(id is String)) ==> why(
                "amux control params.sessionId must be a string when present"@,
            )
            &&& good && (params.get("sessionId"@) matches Some(JsonView::String(id))
                && current_id(session) is Some && current_id(session) != Some(id)) ==> why(
                "amux control params.sessionId must match the active or canonical sessionId"@,
            )
            &&& good && params.get("sessionId"@) is None && current_id(session) is None ==> why(
                "amux control could not determine an ACP sessionId"@,
            )
        }),
{
    if params is Object && carries(params, raw) && params.get("text"@) is None {
        let blocks = params.get("prompt"@)->0->Array_0;
        let texts = choose|texts: Seq<Seq<char>>| #[trigger]
            texts_of(blocks, texts) && raw == texts.flatten();
        law_prompt_text_is_all_blocks(blocks, texts);
    }
}

/// An error for one peer, under the id of its request.
pub open spec fn error_answer(id: IdView, code: i64, message: Seq<char>) -> OutMsgView {
    OutMsgView::Frame(
        json::json_text(
            ResponseView {
                id,
                result: None,
                error: Some(ErrorView { code, message, data: None }),
            }.json(),
        ),
    )
}

/// A result for one peer, under the id of its request.
pub open spec fn result_answer(id: IdView, result: JsonView) -> OutMsgView {
    OutMsgView::Frame(
        json::json_text(ResponseView { id, result: Some(result), error: None }.json()),
    )
}

/// How many prompts count against the limit of the queue: those that were queued.
pub open spec fn queued(prompts: Seq<QueuedPromptView>) -> nat {
    prompts.filter(|prompt: QueuedPromptView| prompt.kind == QueuedPromptKind::Queue).len()
}

proof fn lemma_queued(prompts: Seq<QueuedPromptView>)
    ensures
        control::queue_count(prompts) == queued(prompts),
    decreases prompts.len(),
{
    reveal(Seq::filter);
    if prompts.len() > 0 {
        lemma_queued(prompts.drop_last());
    }
}

/// The item that a request to queue makes.
pub open spec fn queue_item(
    session: SessionView,
    peer_id: Seq<char>,
    raw: Seq<char>,
    session_id: Seq<char>,
) -> QueuedPromptView {
    QueuedPromptView {
        queue_item_id: Some("q-"@ + text::decimal_of(session.next_queue_item_id as nat)),
        peer_id,
        session_id,
        prompt_text: text::trimmed(raw),
        kind: QueuedPromptKind::Queue,
    }
}

/// What the peers are told of an item that is queued.
pub open spec fn queued_frame(session: SessionView, item: QueuedPromptView) -> Seq<u8> {
    let (name, role) = labels(session, item.peer_id);
    json::json_text(
        amux::queue_item_added_frame(
            session.session_id,
            item.queue_item_id->0,
            item.peer_id,
            name,
            role,
            item.prompt_text,
        ),
    )
}

/// A prompt that is queued while a turn is active waits behind those that wait
/// already: with its whole text, for the peer that sent it. The peers are told,
/// and the peer is answered with the item's id. The turn goes on.
pub proof fn law_prompt_is_queued_behind_the_others(
    session: SessionView,
    peer_id: Seq<char>,
    req: RequestView,
    raw: Seq<char>,
    session_id: Seq<char>,
)
    requires
        session.sound(),
        session.active_turn_mux_id is Some,
        queued(session.queued_prompts) < 6,
        req.params is Some,
        asks(session, req.params->0, raw, session_id),
    ensures
        ({
            let (after, write) = session.handle_amux_queue_prompt_request(peer_id, req);
            let item = queue_item(session, peer_id, raw, session_id);
            &&& write is None
            &&& after.queued_prompts == session.queued_prompts.push(item)
            &&& session.next_queue_item_id < u64::MAX ==> after.next_queue_item_id
                == session.next_queue_item_id + 1
            &&& after.outbox == session.outbox + rounds(
                open_peers(session.subscribers),
                seq![queued_frame(session, item)],
            ) + only_to(
                session,
                peer_id,
                result_answer(req.id, queue_answer(item.queue_item_id->0, "queued"@)),
            )
            &&& hearing::logged(
                session.replay_log,
                after.replay_log,
                seq![queued_frame(session, item)],
                session.clock,
            )
            &&& after.pending == session.pending
            &&& after.active_turn_mux_id == session.active_turn_mux_id
            &&& after.active_amux_turn_id == session.active_amux_turn_id
        }),
{
    law_control_is_read(session, req.params->0, raw, session_id);
    lemma_queued(session.queued_prompts);
    lemma_queue_answer(queue_item(session, peer_id, raw, session_id).queue_item_id->0, "queued"@);
    let item = queue_item(session, peer_id, raw, session_id);
    let control = session.control_params(req.params, false)->Ok_0;
    let frame = queued_frame(session, item);
    let entered = SessionView {
        next_queue_item_id: state::bump(session.next_queue_item_id),
        queued_prompts: session.queued_prompts.push(item),
        ..session
    };
    hearing::lemma_told_nothing(entered);
    hearing::lemma_told_more(entered, entered, Seq::empty(), frame);
    assert(Seq::empty().push(frame) =~= seq![frame]);
    assert(session.enqueue(peer_id, control) == entered.broadcast(frame));
    hearing::lemma_told_then(
        entered,
        entered.broadcast(frame),
        seq![frame],
        peer_id,
        result_answer(req.id, queue_answer(item.queue_item_id->0, "queued"@)),
    );
    assert(only_to(
        entered,
        peer_id,
        result_answer(req.id, queue_answer(item.queue_item_id->0, "queued"@)),
    ) == only_to(
        session,
        peer_id,
        result_answer(req.id, queue_answer(item.queue_item_id->0, "queued"@)),
    ));
}

/// The answer to a request that queued or unqueued a prompt.
pub open spec fn queue_answer(queue_item_id: Seq<char>, status: Seq<char>) -> JsonView {
    JsonView::Object(
        seq![
            ("queueItemId"@, JsonView::String(queue_item_id)),
            ("status"@, JsonView::String(status)),
        ],
    )
}

proof fn lemma_queue_answer(queue_item_id: Seq<char>, status: Seq<char>)
    ensures
        control::queue_answer(queue_item_id, status) == queue_answer(queue_item_id, status),
{
    lemma_names();
    reveal_with_fuel(assoc::index_of, 3);
    assert(control::queue_answer(queue_item_id, status)->Object_0 =~= queue_answer(
        queue_item_id,
        status,
    )->Object_0);
}

/// A queue that is full takes no more: nothing changes, and the peer gets an error.
pub proof fn law_full_queue_takes_no_more(
    session: SessionView,
    peer_id: Seq<char>,
    req: RequestView,
)
    requires
        assoc::distinct(session.subscribers),
        session.control_params(req.params, false) is Ok,
        queued(session.queued_prompts) >= 6,
    ensures
        session.handle_amux_queue_prompt_request(peer_id, req) == (
            SessionView {
                outbox: session.outbox + only_to(
                    session,
                    peer_id,
                    error_answer(req.id, (-32003) as i64, "queue full"@),
                ),
                ..session
            },
            None::<Seq<u8>>,
        ),
{
    lemma_queued(session.queued_prompts);
    hearing::lemma_reach(session, peer_id, error_answer(req.id, (-32003) as i64, "queue full"@));
}

/// What the agent is asked for a waiting prompt: the session, and one block with
/// the whole text.
pub open spec fn asked_of_agent(item: QueuedPromptView) -> JsonView {
    JsonView::Object(
        seq![
            ("sessionId"@, JsonView::String(item.session_id)),
            (
                "prompt"@,
                JsonView::Array(
                    seq![
                        JsonView::Object(
                            seq![
                                ("type"@, JsonView::String("text"@)),
                                ("text"@, JsonView::String(item.prompt_text)),
                            ],
                        ),
                    ],
                ),
            ),
        ],
    )
}

proof fn lemma_asked_of_agent(item: QueuedPromptView)
    ensures
        turn::queued_params(item.session_id, item.prompt_text) == asked_of_agent(item),
        asked_of_agent(item).get("prompt"@) == Some(asked_of_agent(item)->Object_0[1].1),
{
    lemma_names();
    reveal_with_fuel(assoc::index_of, 3);
    let block = JsonView::object().field("type"@, JsonView::String("text"@)).field(
        "text"@,
        JsonView::String(item.prompt_text),
    );
    assert(block->Object_0 =~= seq![
        ("type"@, JsonView::String("text"@)),
        ("text"@, JsonView::String(item.prompt_text)),
    ]);
    assert(turn::queued_params(item.session_id, item.prompt_text)->Object_0 =~= asked_of_agent(
        item,
    )->Object_0);
}

/// What the agent gets of a waiting prompt: the prompt, and where the session passes
/// that on, with the trace of whose it is.
pub open spec fn sent_for(session: SessionView, item: QueuedPromptView) -> Option<JsonView> {
    if session.meta_propagate {
        let (peer_name, role) = labels(session, item.peer_id);
        TraceView {
            peer_id: item.peer_id,
            peer_name,
            role,
            mux_id: session.next_mux_id,
            amux_turn_id: Some(AmuxTurnId(session.next_amux_turn_id)),
        }.traced(Some(asked_of_agent(item)))
    } else {
        Some(asked_of_agent(item))
    }
}

proof fn lemma_sent_for(session: SessionView, item: QueuedPromptView)
    ensures
        passing::prompt_in(sent_for(session, item)) == passing::prompt_in(
            Some(asked_of_agent(item)),
        ),
{
    lemma_names();
    let (peer_name, role) = labels(session, item.peer_id);
    marking::law_passed_on_request_says_whose_it_is(
        TraceView {
            peer_id: item.peer_id,
            peer_name,
            role,
            mux_id: session.next_mux_id,
            amux_turn_id: Some(AmuxTurnId(session.next_amux_turn_id)),
        },
        Some(asked_of_agent(item)),
    );
}

/// What the peers are told of a waiting prompt that is submitted.
pub open spec fn submitted_frames(session: SessionView, item: QueuedPromptView) -> Seq<Seq<u8>> {
    let turn_id = AmuxTurnId(session.next_amux_turn_id);
    let started = started_frames(
        session,
        item.peer_id,
        turn_id,
        Some(asked_of_agent(item)),
        match item.kind {
            QueuedPromptKind::HardSteer { supersedes_turn_id } => Some(supersedes_turn_id),
            _ => None,
        },
    );
    match item.queue_item_id {
        Some(id) => started.push(
            json::json_text(amux::queue_item_submitted_frame(session.session_id, id, turn_id)),
        ),
        None => started,
    }
}

/// The first waiting prompt is the one that is submitted, the others move up. The
/// agent gets its whole text under the next mux id, it is the active turn of the
/// peer that it came from, and the peers are told what they would be told of a
/// prompt of that peer, and which item it was. Its answer goes to nobody.
pub proof fn law_first_waiting_prompt_is_submitted(session: SessionView)
    requires
        session.queued_prompts.len() > 0,
    ensures
        ({
            let (after, write) = session.submit_next_queued_prompt();
            let item = session.queued_prompts[0];
            &&& write == Some(
                json::json_text(
                    RequestView {
                        id: IdView::Number(session.next_mux_id as i64),
                        method: "session/prompt"@,
                        params: sent_for(session, item),
                    }.json(),
                ),
            )
            &&& after.queued_prompts == session.queued_prompts.skip(1)
            &&& after.active_turn_mux_id == Some(session.next_mux_id)
            &&& after.active_amux_turn_id == Some(AmuxTurnId(session.next_amux_turn_id))
            &&& after.active_turn_session_id == Some(item.session_id)
            &&& after.active_turn_prompt_text == Some(item.prompt_text)
            &&& session.next_mux_id < u64::MAX ==> after.next_mux_id == session.next_mux_id + 1
            &&& session.next_amux_turn_id < u64::MAX ==> after.next_amux_turn_id
                == session.next_amux_turn_id + 1
            &&& assoc::lookup(after.pending, session.next_mux_id) matches Some(pending) && {
                &&& pending.peer_id == item.peer_id
                &&& pending.queue_item_id == item.queue_item_id
                &&& !pending.deliver_response
                &&& pending.handshake is None
            }
            &&& told(session, after, submitted_frames(session, item))
            &&& assoc::holds(session.subscribers, item.peer_id)
                ==> after.driving_subscriber_peer_id == Some(item.peer_id)
        }),
{
    let item = session.queued_prompts[0];
    lemma_asked_of_agent(item);
    let popped = SessionView {
        queued_prompts: session.queued_prompts.drop_first(),
        ..session
    }.note_driving_subscriber(item.peer_id);
    let turn_id = AmuxTurnId(session.next_amux_turn_id);
    let pending = PendingView {
        peer_id: item.peer_id,
        original_id: state::wire_id(session.next_mux_id),
        handshake: None,
        decorate_session_list: false,
        deliver_response: false,
        queue_item_id: item.queue_item_id,
    };
    assoc::lemma_store(session.pending, session.next_mux_id, pending, session.next_mux_id);
    let opened = SessionView {
        next_mux_id: state::bump(session.next_mux_id),
        next_amux_turn_id: state::bump(session.next_amux_turn_id),
        pending: assoc::store(session.pending, session.next_mux_id, pending),
        active_turn_mux_id: Some(session.next_mux_id),
        active_amux_turn_id: Some(turn_id),
        active_turn_session_id: Some(item.session_id),
        active_turn_prompt_text: Some(item.prompt_text),
        ..popped
    };
    let params = sent_for(session, item);
    lemma_sent_for(session, item);
    let supersedes = item.supersedes();
    assert(popped.queued_request(item).params == params);
    let started = opened.emit_turn_started(item.peer_id, turn_id, params, supersedes);
    passing::lemma_start_is_told(opened, item.peer_id, turn_id, params, supersedes);
    let frames = started_frames(opened, item.peer_id, turn_id, params, supersedes);
    assert(frames == started_frames(
        session,
        item.peer_id,
        turn_id,
        Some(asked_of_agent(item)),
        supersedes,
    ));
    if let Some(id) = item.queue_item_id {
        let last = json::json_text(
            amux::queue_item_submitted_frame(session.session_id, id, turn_id),
        );
        hearing::lemma_told_more(opened, started, frames, last);
    }
    assert(told(opened, session.submit_next_queued_prompt().0, submitted_frames(session, item)));
    assert(session.queued_prompts.drop_first() =~= session.queued_prompts.skip(1));
}

/// A prompt that is queued while no turn is active is submitted at once: the peers
/// are told that it was queued and then that its turn started, and the peer is
/// answered that it was submitted.
pub proof fn law_prompt_queued_in_an_idle_session_is_submitted(
    session: SessionView,
    peer_id: Seq<char>,
    req: RequestView,
    raw: Seq<char>,
    session_id: Seq<char>,
)
    requires
        session.sound(),
        session.active_turn_mux_id is None,
        req.params is Some,
        asks(session, req.params->0, raw, session_id),
        session.reachable(peer_id),
    ensures
        ({
            let (after, write) = session.handle_amux_queue_prompt_request(peer_id, req);
            let item = queue_item(session, peer_id, raw, session_id);
            &&& write == Some(
                json::json_text(
                    RequestView {
                        id: IdView::Number(session.next_mux_id as i64),
                        method: "session/prompt"@,
                        params: sent_for(session, item),
                    }.json(),
                ),
            )
            &&& after.queued_prompts.len() == 0
            &&& after.active_turn_mux_id == Some(session.next_mux_id)
            &&& after.active_turn_prompt_text == Some(text::trimmed(raw))
            &&& after.outbox == session.outbox + rounds(
                open_peers(session.subscribers),
                seq![queued_frame(session, item)] + submitted_frames(session, item),
            ) + only_to(
                session,
                peer_id,
                result_answer(req.id, queue_answer(item.queue_item_id->0, "submitted"@)),
            )
        }),
{
    law_control_is_read(session, req.params->0, raw, session_id);
    reveal(Seq::filter);
    lemma_queued(session.queued_prompts);
    let item = queue_item(session, peer_id, raw, session_id);
    let id = item.queue_item_id->0;
    lemma_queue_answer(id, "submitted"@);
    let control = session.control_params(req.params, false)->Ok_0;
    let frame = queued_frame(session, item);
    let entered = SessionView {
        next_queue_item_id: state::bump(session.next_queue_item_id),
        queued_prompts: session.queued_prompts.push(item),
        ..session
    };
    hearing::lemma_told_nothing(entered);
    hearing::lemma_told_more(entered, entered, Seq::empty(), frame);
    assert(Seq::empty().push(frame) =~= seq![frame]);
    let waiting = entered.broadcast(frame);
    assert(session.enqueue(peer_id, control) == waiting);
    passing::lemma_labels_after(entered, frame, peer_id);
    law_first_waiting_prompt_is_submitted(waiting);
    let submitted = waiting.submit_next_queued_prompt().0;
    assert(submitted_frames(waiting, item) == submitted_frames(session, item));
    lemma_told_on(entered, waiting, seq![frame], submitted, submitted_frames(session, item));
    let answer = result_answer(req.id, queue_answer(id, "submitted"@));
    hearing::lemma_told_then(
        entered,
        submitted,
        seq![frame] + submitted_frames(session, item),
        peer_id,
        answer,
    );
    assert(only_to(entered, peer_id, answer) == only_to(session, peer_id, answer));
}

/// What is told after something else was told is heard after it.
pub proof fn lemma_told_on(
    before: SessionView,
    between: SessionView,
    first: Seq<Seq<u8>>,
    after: SessionView,
    then_told: Seq<Seq<u8>>,
)
    requires
        told(before, between, first),
        told(between, after, then_told),
    ensures
        told(before, after, first + then_told),
{
    let peers = open_peers(before.subscribers);
    hearing::lemma_open_twice(before.subscribers);
    lemma_rounds_join(peers, first, then_told);
    assert(after.outbox =~= before.outbox + rounds(peers, first + then_told));
    if then_told.len() == 0 {
        assert(first + then_told =~= first);
    }
    if let Some(log) = before.replay_log {
        let mid = between.replay_log->Some_0;
        let longer = after.replay_log->Some_0;
        let all = first + then_told;
        assert forall|i: int| 0 <= i < log.len() implies longer[i] == #[trigger] log[i] by {
            assert(mid[i] == log[i]);
        }
        assert forall|i: int| 0 <= i < all.len() implies longer[log.len() + i].frame
            == #[trigger] all[i] && longer[log.len() + i].recorded_at == before.clock by {
            if i < first.len() {
                assert(first[i] == all[i]);
                assert(longer[log.len() + i] == mid[log.len() + i]);
            } else {
                assert(then_told[i - first.len()] == all[i]);
                assert(longer[mid.len() + (i - first.len())].frame == all[i]);
            }
        }
    }
}

proof fn lemma_rounds_join(
    peers: Seq<(Seq<char>, SubscriberView)>,
    first: Seq<Seq<u8>>,
    second: Seq<Seq<u8>>,
)
    ensures
        rounds(peers, first + second) == rounds(peers, first) + rounds(peers, second),
    decreases second.len(),
{
    if second.len() > 0 {
        lemma_rounds_join(peers, first, second.drop_last());
        assert((first + second).drop_last() =~= first + second.drop_last());
        assert(rounds(peers, first + second) =~= rounds(peers, first) + rounds(peers, second));
    } else {
        assert(first + second =~= first);
        assert(rounds(peers, first) + Seq::<DeliveryView>::empty() =~= rounds(peers, first));
    }
}

/// The queue item that a request to unqueue names: a text that is not only white
/// space, without the white space around it.
pub open spec fn names_item(params: Option<JsonView>, queue_item_id: Seq<char>) -> bool {
    &&& params matches Some(JsonView::Object(_))
    &&& params->0.get("queueItemId"@) matches Some(JsonView::String(raw)) && text::trimmed(raw)
        == queue_item_id
    &&& queue_item_id.len() > 0
}

/// A prompt that is unqueued is taken out, the one with that id and no other; the
/// others keep their order. The peers are told which one it was and who took it
/// out, and the peer is answered. Whoever sent it, whoever may take it out.
pub proof fn law_unqueued_prompt_is_taken_out(
    session: SessionView,
    peer_id: Seq<char>,
    req: RequestView,
    at: int,
)
    requires
        session.sound(),
        0 <= at < session.queued_prompts.len(),
        session.queued_prompts[at].queue_item_id is Some,
        names_item(req.params, session.queued_prompts[at].queue_item_id->0),
        forall|i: int|
            0 <= i < at ==> (#[trigger] session.queued_prompts[i]).queue_item_id
                != session.queued_prompts[at].queue_item_id,
    ensures
        ({
            let after = session.handle_amux_unqueue_prompt_request(peer_id, req);
            let id = session.queued_prompts[at].queue_item_id->0;
            let frame = json::json_text(
                amux::queue_item_removed_frame(session.session_id, id, peer_id),
            );
            &&& after.queued_prompts == session.queued_prompts.take(at)
                + session.queued_prompts.skip(at + 1)
            &&& after.outbox == session.outbox + rounds(
                open_peers(session.subscribers),
                seq![frame],
            ) + only_to(session, peer_id, result_answer(req.id, queue_answer(id, "removed"@)))
            &&& hearing::logged(session.replay_log, after.replay_log, seq![frame], session.clock)
            &&& after.pending == session.pending
            &&& after.active_turn_mux_id == session.active_turn_mux_id
        }),
{
    let id = session.queued_prompts[at].queue_item_id->0;
    lemma_first_item(session.queued_prompts, id, at);
    lemma_queue_answer(id, "removed"@);
    let removed = SessionView { queued_prompts: session.queued_prompts.remove(at), ..session };
    assert(removed.queued_prompts =~= session.queued_prompts.take(at)
        + session.queued_prompts.skip(at + 1));
    let frame = json::json_text(amux::queue_item_removed_frame(session.session_id, id, peer_id));
    let answer = result_answer(req.id, queue_answer(id, "removed"@));
    hearing::lemma_told_nothing(removed);
    hearing::lemma_told_more(removed, removed, Seq::empty(), frame);
    assert(Seq::empty().push(frame) =~= seq![frame]);
    hearing::lemma_told_then(removed, removed.broadcast(frame), seq![frame], peer_id, answer);
    assert(only_to(removed, peer_id, answer) == only_to(session, peer_id, answer));
}

proof fn lemma_first_item(prompts: Seq<QueuedPromptView>, id: Seq<char>, at: int)
    requires
        0 <= at <= prompts.len(),
        at < prompts.len() ==> prompts[at].queue_item_id == Some(id),
        forall|i: int| 0 <= i < at ==> (#[trigger] prompts[i]).queue_item_id != Some(id),
    ensures
        control::queue_position(prompts, id) == at,
    decreases prompts.len(),
{
    if at > 0 {
        let rest = prompts.drop_first();
        assert forall|i: int| 0 <= i < at - 1 implies (#[trigger] rest[i]).queue_item_id != Some(
            id,
        ) by {
            assert(rest[i] == prompts[i + 1]);
        }
        lemma_first_item(rest, id, at - 1);
    }
}

/// What is said of a request to unqueue that names nothing that waits.
pub open spec fn unqueue_fault(params: Option<JsonView>) -> Seq<char> {
    if !(params is Some && params->0 is Object) {
        "amux/unqueue_prompt params must be an object"@
    } else if !(params->0.get("queueItemId"@) is Some && params->0.get("queueItemId"@)->0
        is String) {
        "amux/unqueue_prompt params.queueItemId must be a string"@
    } else if text::trimmed(params->0.get("queueItemId"@)->0->String_0).len() == 0 {
        "amux/unqueue_prompt params.queueItemId must be non-empty"@
    } else {
        "queue item not found"@
    }
}

/// A request to unqueue that names nothing that waits changes nothing: the peer
/// gets an error that says what is wrong.
pub proof fn law_nothing_else_is_unqueued(
    session: SessionView,
    peer_id: Seq<char>,
    req: RequestView,
)
    requires
        assoc::distinct(session.subscribers),
        forall|i: int|
            0 <= i < session.queued_prompts.len() && (#[trigger] session.queued_prompts[
                i
            ]).queue_item_id is Some ==> !names_item(
                req.params,
                session.queued_prompts[i].queue_item_id->0,
            ),
    ensures
        session.handle_amux_unqueue_prompt_request(peer_id, req) == (SessionView {
            outbox: session.outbox + only_to(
                session,
                peer_id,
                error_answer(req.id, (-32602) as i64, unqueue_fault(req.params)),
            ),
            ..session
        }),
{
    let prompts = session.queued_prompts;
    match control::unqueue_target(req.params) {
        Err(message) => {
            hearing::lemma_reach(
                session,
                peer_id,
                error_answer(req.id, (-32602) as i64, message),
            );
        },
        Ok(id) => {
            assert forall|i: int| 0 <= i < prompts.len() implies (
            #[trigger] prompts[i]).queue_item_id != Some(id) by {
                if prompts[i].queue_item_id == Some(id) {
                    assert(names_item(req.params, id));
                }
            }
            lemma_first_item(prompts, id, prompts.len() as int);
            let message = "queue item not found"@;
            hearing::lemma_reach(
                session,
                peer_id,
                error_answer(req.id, (-32602) as i64, message),
            );
        },
    }
}

/// Whether a text stands in another one, somewhere before its last `tail`
/// characters.
pub open spec fn stands_in(part: Seq<char>, whole: Seq<char>, tail: nat) -> bool {
    exists|at: int|
        0 <= at && at + part.len() + tail <= whole.len() && #[trigger] whole.subrange(
            at,
            at + part.len(),
        ) == part
}

/// The prompt that takes the place of a steered turn ends with the steer, and holds
/// before it the prompt of that turn, where it is known, who steered, and which
/// turn it was.
pub proof fn law_steered_prompt_holds_all(
    peer_id: Seq<char>,
    turn_id: AmuxTurnId,
    original: Option<Seq<char>>,
    steer: Seq<char>,
)
    ensures
        ({
            let prompt = control::hard_steer_prompt(peer_id, turn_id, original, steer);
            &&& prompt.len() >= steer.len()
            &&& prompt.skip(prompt.len() - steer.len()) == steer
            &&& original matches Some(text) ==> stands_in(text, prompt, steer.len())
            &&& stands_in(peer_id, prompt, steer.len())
            &&& stands_in(turn_id.text(), prompt, steer.len())
        }),
{
    let prompt = control::hard_steer_prompt(peer_id, turn_id, original, steer);
    let a = "Active turn steered by peer `"@;
    let b = "` (supersedes "@;
    let c = "). Use the steer below to answer the original prompt.\n\nOriginal:\n"@;
    let kept = match original {
        Some(text) => text,
        None => control::UNAVAILABLE_PROMPT@,
    };
    let head = a + peer_id + b + turn_id.text() + c;
    assert(prompt.skip(prompt.len() - steer.len()) =~= steer);
    assert(prompt.subrange(a.len() as int, (a + peer_id).len() as int) =~= peer_id);
    let at = (a + peer_id + b).len() as int;
    assert(prompt.subrange(at, at + turn_id.text().len()) =~= turn_id.text());
    assert(prompt.subrange(head.len() as int, (head + kept).len() as int) =~= kept);
}

/// What the peers are told of a steer.
pub open spec fn steer_told(
    session: SessionView,
    peer_id: Seq<char>,
    mode: Seq<char>,
    turn_id: AmuxTurnId,
    said: Seq<char>,
) -> Seq<u8> {
    let (name, role) = labels(session, peer_id);
    json::json_text(
        control::steer_frame(session.session_id, mode, peer_id, name, role, turn_id, said),
    )
}

/// Whether an answer accepts a steer.
pub open spec fn accepts(result: JsonView, mode: Seq<char>) -> bool {
    &&& result.get("accepted"@) == Some(JsonView::Bool(true))
    &&& result.get("mode"@) == Some(JsonView::String(mode))
}

/// Steering the active turn cancels it and puts a prompt before everything that
/// waits: one that holds the steered prompt and the steer, and takes the place of
/// the turn. The peers are told of the steer and of the cancellation, and the peer
/// is answered which turn was steered.
pub proof fn law_active_turn_is_steered(
    session: SessionView,
    peer_id: Seq<char>,
    req: RequestView,
    raw: Seq<char>,
    session_id: Seq<char>,
)
    requires
        session.sound(),
        session.active_turn_mux_id is Some,
        session.active_turn_session_id is Some,
        forall|i: int|
            0 <= i < session.queued_prompts.len() ==> !((#[trigger] session.queued_prompts[i]).kind
                is HardSteer),
        req.params is Some,
        asks(session, req.params->0, raw, session_id),
    ensures
        ({
            let (after, write) = session.handle_amux_steer_request(peer_id, req);
            let turn_id = session.active_amux_turn_id->0;
            let owner = assoc::lookup(session.pending, session.active_turn_mux_id->0)->0.peer_id;
            let said = text::trimmed(raw);
            let frames = seq![
                steer_told(session, peer_id, "hard"@, turn_id, said),
                json::json_text(
                    amux::turn_cancelled_frame(
                        session.session_id,
                        turn_id,
                        peer_id,
                        owner,
                        Some("hard_steer"@),
                    ),
                ),
            ];
            &&& write == Some(
                json::json_text(
                    control::session_cancel_frame(session.active_turn_session_id->0),
                ),
            )
            &&& after.queued_prompts == seq![
                QueuedPromptView {
                    queue_item_id: None,
                    peer_id,
                    session_id,
                    prompt_text: control::hard_steer_prompt(
                        peer_id,
                        turn_id,
                        session.active_turn_prompt_text,
                        said,
                    ),
                    kind: QueuedPromptKind::HardSteer { supersedes_turn_id: turn_id },
                },
            ] + session.queued_prompts
            &&& exists|result: JsonView| #[trigger]
                accepts(result, "hard"@) && result.get("supersedesTurnId"@) == Some(
                    JsonView::String(turn_id.text()),
                ) && after.outbox == session.outbox + rounds(
                    open_peers(session.subscribers),
                    frames,
                ) + only_to(session, peer_id, result_answer(req.id, result))
            &&& after.active_turn_mux_id == session.active_turn_mux_id
            &&& after.pending == session.pending
        }),
{
    broadcast use json::lemma_get_field;

    lemma_names();
    law_control_is_read(session, req.params->0, raw, session_id);
    let said = text::trimmed(raw);
    let mux_id = session.active_turn_mux_id->0;
    let turn_id = session.active_amux_turn_id->0;
    let owner = assoc::lookup(session.pending, mux_id)->0.peer_id;
    let first = steer_told(session, peer_id, "hard"@, turn_id, said);
    let second = json::json_text(
        amux::turn_cancelled_frame(
            session.session_id,
            turn_id,
            peer_id,
            owner,
            Some("hard_steer"@),
        ),
    );
    let result = JsonView::object().field("accepted"@, JsonView::Bool(true)).field(
        "mode"@,
        JsonView::String("hard"@),
    ).field("supersedesTurnId"@, turn_id.json());
    assert(accepts(result, "hard"@));
    let (after, write) = session.handle_amux_steer_request(peer_id, req);
    hearing::lemma_told_nothing(session);
    hearing::lemma_told_more(session, session, Seq::empty(), first);
    assert(Seq::empty().push(first) =~= seq![first]);
    hearing::lemma_told_more(session, session.broadcast(first), seq![first], second);
    assert(seq![first].push(second) =~= seq![first, second]);
    let told_both = session.broadcast(first).broadcast(second);
    let answer = result_answer(req.id, result);
    hearing::lemma_told_then(session, told_both, seq![first, second], peer_id, answer);
    let item = QueuedPromptView {
        queue_item_id: None,
        peer_id,
        session_id,
        prompt_text: control::hard_steer_prompt(
            peer_id,
            turn_id,
            session.active_turn_prompt_text,
            said,
        ),
        kind: QueuedPromptKind::HardSteer { supersedes_turn_id: turn_id },
    };
    assert(session.queued_prompts.insert(0, item) =~= seq![item] + session.queued_prompts);
    let pushed = told_both.push_front(item);
    assert(after == pushed.send_to(peer_id, answer));
    assert(pushed.send_to(peer_id, answer).outbox == told_both.send_to(peer_id, answer).outbox);
}

/// A second steer is refused while the first one waits: nothing changes.
pub proof fn law_one_steer_at_a_time(session: SessionView, peer_id: Seq<char>, req: RequestView, at: int)
    requires
        assoc::distinct(session.subscribers),
        session.active_turn_mux_id is Some,
        0 <= at < session.queued_prompts.len(),
        session.queued_prompts[at].kind is HardSteer,
        session.control_params(req.params, false) is Ok,
    ensures
        session.handle_amux_steer_request(peer_id, req) == (
            SessionView {
                outbox: session.outbox + only_to(
                    session,
                    peer_id,
                    error_answer(
                        req.id,
                        (-32002) as i64,
                        "a hard steer is already pending for this turn"@,
                    ),
                ),
                ..session
            },
            None::<Seq<u8>>,
        ),
{
    hearing::lemma_reach(
        session,
        peer_id,
        error_answer(
            req.id,
            (-32002) as i64,
            "a hard steer is already pending for this turn"@,
        ),
    );
}

/// Steering while no turn is active makes the text the next prompt: the agent gets
/// it, the peers are told of the steer and then of the turn, and the peer is
/// answered which turn it is.
pub proof fn law_steer_in_an_idle_session_is_a_prompt(
    session: SessionView,
    peer_id: Seq<char>,
    req: RequestView,
    raw: Seq<char>,
    session_id: Seq<char>,
)
    requires
        session.sound(),
        session.active_turn_mux_id is None,
        req.params is Some,
        asks(session, req.params->0, raw, session_id),
        session.reachable(peer_id),
    ensures
        ({
            let (after, write) = session.handle_amux_steer_request(peer_id, req);
            let turn_id = AmuxTurnId(session.next_amux_turn_id);
            let said = text::trimmed(raw);
            let item = QueuedPromptView {
                queue_item_id: None,
                peer_id,
                session_id,
                prompt_text: said,
                kind: QueuedPromptKind::Prompt,
            };
            &&& write == Some(
                json::json_text(
                    RequestView {
                        id: IdView::Number(session.next_mux_id as i64),
                        method: "session/prompt"@,
                        params: sent_for(session, item),
                    }.json(),
                ),
            )
            &&& after.active_turn_mux_id == Some(session.next_mux_id)
            &&& after.active_turn_prompt_text == Some(said)
            &&& after.queued_prompts == session.queued_prompts
            &&& exists|result: JsonView| #[trigger]
                accepts(result, "prompt"@) && result.get("status"@) == Some(
                    JsonView::String("submitted"@),
                ) && result.get("amuxTurnId"@) == Some(JsonView::String(turn_id.text()))
                    && after.outbox == session.outbox + rounds(
                    open_peers(session.subscribers),
                    seq![steer_told(session, peer_id, "prompt"@, turn_id, said)]
                        + submitted_frames(session, item),
                ) + only_to(session, peer_id, result_answer(req.id, result))
        }),
{
    broadcast use json::lemma_get_field;

    lemma_names();
    law_control_is_read(session, req.params->0, raw, session_id);
    let said = text::trimmed(raw);
    let turn_id = AmuxTurnId(session.next_amux_turn_id);
    let first = steer_told(session, peer_id, "prompt"@, turn_id, said);
    let item = QueuedPromptView {
        queue_item_id: None,
        peer_id,
        session_id,
        prompt_text: said,
        kind: QueuedPromptKind::Prompt,
    };
    let result = JsonView::object().field("accepted"@, JsonView::Bool(true)).field(
        "mode"@,
        JsonView::String("prompt"@),
    ).field("status"@, JsonView::String("submitted"@)).field("amuxTurnId"@, turn_id.json());
    assert(accepts(result, "prompt"@));
    hearing::lemma_told_nothing(session);
    hearing::lemma_told_more(session, session, Seq::empty(), first);
    assert(Seq::empty().push(first) =~= seq![first]);
    passing::lemma_labels_after(session, first, peer_id);
    let pushed = session.broadcast(first).push_front(item);
    assert(pushed.queued_prompts[0] == item);
    assert(pushed.queued_prompts.skip(1) =~= session.queued_prompts);
    assert(told(session, pushed, seq![first]));
    law_first_waiting_prompt_is_submitted(pushed);
    let submitted = pushed.submit_next_queued_prompt().0;
    assert(submitted_frames(pushed, item) == submitted_frames(session, item));
    lemma_told_on(session, pushed, seq![first], submitted, submitted_frames(session, item));
    let answer = result_answer(req.id, result);
    hearing::lemma_told_then(
        session,
        submitted,
        seq![first] + submitted_frames(session, item),
        peer_id,
        answer,
    );
    let (after, write) = session.handle_amux_steer_request(peer_id, req);
    assert(after == submitted.send_to(peer_id, answer));
}

/// The stop reason that a result gives, or null.
pub open spec fn stop_reason(result: Option<JsonView>) -> JsonView {
    match result {
        Some(result) => match result.get("stopReason"@) {
            Some(reason) => reason,
            None => JsonView::Null,
        },
        None => JsonView::Null,
    }
}

/// The requests of the agent that still wait for a reply, in the order in which
/// they came.
pub open spec fn unanswered(agent_pending: Seq<(IdView, AgentReqState)>) -> Seq<IdView> {
    agent_pending.filter(
        |request: (IdView, AgentReqState)| request.1 == AgentReqState::InFlight,
    ).map_values(|request: (IdView, AgentReqState)| request.0)
}

proof fn lemma_unanswered(agent_pending: Seq<(IdView, AgentReqState)>)
    ensures
        agent::in_flight(agent_pending) == unanswered(agent_pending),
    decreases agent_pending.len(),
{
    reveal(Seq::filter);
    if agent_pending.len() > 0 {
        let waits = |request: (IdView, AgentReqState)| request.1 == AgentReqState::InFlight;
        let id = |request: (IdView, AgentReqState)| request.0;
        let front = agent_pending.drop_last();
        lemma_unanswered(front);
        if agent_pending.last().1 == AgentReqState::InFlight {
            assert(front.filter(waits).push(agent_pending.last()).map_values(id) =~= front.filter(
                waits,
            ).map_values(id).push(agent_pending.last().0));
        }
        assert(agent::in_flight(agent_pending) =~= unanswered(agent_pending));
    } else {
        assert(agent::in_flight(agent_pending) =~= unanswered(agent_pending));
    }
}

/// What the peers are told when a turn ends: of each request of the agent that
/// nobody replied to, that it is settled; then the end of the turn with the stop
/// reason as the agent gave it; then, where the prompt was queued, that its item
/// is done, with the same stop reason.
pub open spec fn end_frames(
    session: SessionView,
    turn_id: AmuxTurnId,
    queue_item_id: Option<Seq<char>>,
    result: Option<JsonView>,
) -> Seq<Seq<u8>> {
    let settled = unanswered(session.agent_pending).map_values(
        |id: IdView|
            json::json_text(
                amux::agent_request_resolved_frame(
                    session.session_id,
                    id.json(),
                    "mux:turn-ended"@,
                    None,
                    None,
                ),
            ),
    );
    let ended = settled + with_update(
        session,
        amux::turn_complete_frame(session.session_id, turn_id, stop_reason(result)),
        |id: Seq<char>| session_update::turn_complete_frame(id, stop_reason(result)),
    );
    match queue_item_id {
        Some(item) => ended.push(
            json::json_text(
                amux::queue_item_completed_frame(
                    session.session_id,
                    item,
                    turn_id,
                    stop_reason(result),
                ),
            ),
        ),
        None => ended,
    }
}

/// The end of a turn is told as it is.
proof fn lemma_end_is_told(
    session: SessionView,
    turn_id: AmuxTurnId,
    queue_item_id: Option<Seq<char>>,
    result: Option<JsonView>,
) -> (ended: SessionView)
    requires
        session.active_amux_turn_id == Some(turn_id),
    ensures
        told(session, ended, end_frames(session, turn_id, queue_item_id, result)),
        session.finish_turn(queue_item_id, result) == ended.submit_next_queued_prompt(),
        ended.active_turn_mux_id is None,
        ended.active_amux_turn_id is None,
        ended.active_turn_session_id is None,
        ended.active_turn_prompt_text is None,
        ended.queued_prompts == session.queued_prompts,
        ended.pending == session.pending,
        ended.next_mux_id == session.next_mux_id,
        ended.next_amux_turn_id == session.next_amux_turn_id,
        ended.meta_propagate == session.meta_propagate,
        ended.session_id == session.session_id,
        ended.canonical_session_id == session.canonical_session_id,
        ended.session_new_cache == session.session_new_cache,
{
    let idle = session.idle();
    let stale = agent::in_flight(idle.agent_pending);
    lemma_unanswered(idle.agent_pending);
    let consumed = idle.consume_all(stale);
    agent::lemma_consume_all_scope(idle, stale);
    let settled = idle.settled_frames(stale, "mux:turn-ended"@);
    let spoken = unanswered(session.agent_pending).map_values(
        |id: IdView|
            json::json_text(
                amux::agent_request_resolved_frame(
                    session.session_id,
                    id.json(),
                    "mux:turn-ended"@,
                    None,
                    None,
                ),
            ),
    );
    assert(settled =~= spoken);
    hearing::lemma_told_nothing(consumed);
    hearing::lemma_told_all(consumed, consumed, Seq::empty(), settled);
    assert(Seq::<Seq<u8>>::empty() + settled =~= settled);
    let swept = consumed.broadcast_all(settled);
    attach::lemma_broadcast_all_scope(consumed, settled);
    let reason = stop_reason(result);
    let first = json::json_text(
        amux::turn_complete_frame(session.session_id, turn_id, reason),
    );
    hearing::lemma_told_more(consumed, swept, settled, first);
    let once = swept.broadcast(first);
    let base = settled.push(first);
    let complete = swept.emit_turn_complete(turn_id, result);
    let frames = match passing::plain_id(session) {
        Some(id) => {
            let second = json::json_text(session_update::turn_complete_frame(id, reason));
            hearing::lemma_told_more(consumed, once, base, second);
            base.push(second)
        },
        None => base,
    };
    assert(told(consumed, complete, frames));
    let update = |id: Seq<char>| session_update::turn_complete_frame(id, reason);
    let doc = amux::turn_complete_frame(session.session_id, turn_id, reason);
    assert(frames =~= settled + with_update(session, doc, update));
    let ended = match queue_item_id {
        Some(item) => {
            let last = json::json_text(
                amux::queue_item_completed_frame(session.session_id, item, turn_id, reason),
            );
            hearing::lemma_told_more(consumed, complete, frames, last);
            complete.broadcast(last)
        },
        None => complete,
    };
    assert(told(consumed, ended, end_frames(session, turn_id, queue_item_id, result)));
    ended
}

/// Whether the outbox begins with what it held and then these messages.
pub open spec fn begins(
    outbox: Seq<DeliveryView>,
    held: Seq<DeliveryView>,
    messages: Seq<DeliveryView>,
) -> bool {
    &&& outbox.len() >= held.len() + messages.len()
    &&& outbox.take((held.len() + messages.len()) as int) == held + messages
}

/// When the agent answers the active turn, everybody hears how it ended: with the
/// stop reason that the answer gives, whatever it is. What the turn left open is
/// settled first. Where no prompt waits, the session is then idle, and the one who
/// asked gets the answer; where one waits, it is submitted.
pub proof fn law_turn_end_is_told_as_the_agent_gave_it(
    session: SessionView,
    resp: ResponseView,
    pending: PendingView,
)
    requires
        session.sound(),
        session.active_turn_mux_id is Some,
        session.active_turn_mux_id->0 <= i64::MAX,
        resp.id == IdView::Number(session.active_turn_mux_id->0 as i64),
        assoc::lookup(session.pending, session.active_turn_mux_id->0) == Some(pending),
        pending.handshake is None,
    ensures
        ({
            let (after, write) = session.route_agent_response(resp);
            let turn_id = session.active_amux_turn_id->0;
            let frames = end_frames(session, turn_id, pending.queue_item_id, resp.result);
            let heard = rounds(open_peers(session.subscribers), frames);
            &&& begins(after.outbox, session.outbox, heard)
            &&& session.queued_prompts.len() == 0 ==> {
                &&& write is None
                &&& after.active_turn_mux_id is None
                &&& after.active_amux_turn_id is None
                &&& after.active_turn_session_id is None
                &&& after.active_turn_prompt_text is None
                &&& hearing::logged(session.replay_log, after.replay_log, frames, session.clock)
                &&& pending.deliver_response && !pending.decorate_session_list ==> after.outbox
                    == session.outbox + heard + only_to(
                    session,
                    pending.peer_id,
                    OutMsgView::Frame(
                        json::json_text(
                            ResponseView { id: pending.original_id, ..resp }.json(),
                        ),
                    ),
                )
                &&& !pending.deliver_response ==> after.outbox == session.outbox + heard
            }
            &&& session.queued_prompts.len() > 0 ==> {
                let item = session.queued_prompts[0];
                &&& write is Some
                &&& !session.meta_propagate ==> write == Some(
                    json::json_text(
                        RequestView {
                            id: IdView::Number(session.next_mux_id as i64),
                            method: "session/prompt"@,
                            params: Some(asked_of_agent(item)),
                        }.json(),
                    ),
                )
                &&& after.queued_prompts == session.queued_prompts.skip(1)
                &&& after.active_turn_mux_id == Some(session.next_mux_id)
                &&& after.active_turn_prompt_text == Some(item.prompt_text)
            }
        }),
{
    if session.queued_prompts.len() == 0 {
        lemma_last_turn_ends(session, resp, pending);
    } else {
        lemma_next_turn_starts(session, resp, pending);
    }
}

/// The state between the end of the active turn and the start of the next one.
proof fn lemma_between_turns(
    session: SessionView,
    resp: ResponseView,
    pending: PendingView,
) -> (ended: SessionView)
    requires
        session.sound(),
        session.active_turn_mux_id is Some,
        session.active_turn_mux_id->0 <= i64::MAX,
        resp.id == IdView::Number(session.active_turn_mux_id->0 as i64),
        assoc::lookup(session.pending, session.active_turn_mux_id->0) == Some(pending),
        pending.handshake is None,
    ensures
        told(
            session,
            ended,
            end_frames(session, session.active_amux_turn_id->0, pending.queue_item_id, resp.result),
        ),
        ({
            let (next, write) = ended.submit_next_queued_prompt();
            session.route_agent_response(resp) == (next.deliver_response(pending, resp), write)
        }),
        ended.active_turn_mux_id is None,
        ended.active_amux_turn_id is None,
        ended.active_turn_session_id is None,
        ended.active_turn_prompt_text is None,
        ended.queued_prompts == session.queued_prompts,
        ended.next_mux_id == session.next_mux_id,
        ended.next_amux_turn_id == session.next_amux_turn_id,
        ended.meta_propagate == session.meta_propagate,
{
    let mux_id = session.active_turn_mux_id->0;
    let turn_id = session.active_amux_turn_id->0;
    let settled = SessionView { pending: assoc::erase(session.pending, mux_id), ..session };
    assert(agent::answered(resp.id) == Some(mux_id));
    let ended = lemma_end_is_told(settled, turn_id, pending.queue_item_id, resp.result);
    assert(end_frames(settled, turn_id, pending.queue_item_id, resp.result) == end_frames(
        session,
        turn_id,
        pending.queue_item_id,
        resp.result,
    ));
    ended
}

proof fn lemma_last_turn_ends(session: SessionView, resp: ResponseView, pending: PendingView)
    requires
        session.sound(),
        session.active_turn_mux_id is Some,
        session.active_turn_mux_id->0 <= i64::MAX,
        resp.id == IdView::Number(session.active_turn_mux_id->0 as i64),
        assoc::lookup(session.pending, session.active_turn_mux_id->0) == Some(pending),
        pending.handshake is None,
        session.queued_prompts.len() == 0,
    ensures
        ({
            let (after, write) = session.route_agent_response(resp);
            let turn_id = session.active_amux_turn_id->0;
            let frames = end_frames(session, turn_id, pending.queue_item_id, resp.result);
            let heard = rounds(open_peers(session.subscribers), frames);
            &&& begins(after.outbox, session.outbox, heard)
            &&& write is None
            &&& after.active_turn_mux_id is None
            &&& after.active_amux_turn_id is None
            &&& after.active_turn_session_id is None
            &&& after.active_turn_prompt_text is None
            &&& hearing::logged(session.replay_log, after.replay_log, frames, session.clock)
            &&& pending.deliver_response && !pending.decorate_session_list ==> after.outbox
                == session.outbox + heard + only_to(
                session,
                pending.peer_id,
                OutMsgView::Frame(
                    json::json_text(ResponseView { id: pending.original_id, ..resp }.json()),
                ),
            )
            &&& !pending.deliver_response ==> after.outbox == session.outbox + heard
        }),
{
    let ended = lemma_between_turns(session, resp, pending);
    let turn_id = session.active_amux_turn_id->0;
    let frames = end_frames(session, turn_id, pending.queue_item_id, resp.result);
    let heard = rounds(open_peers(session.subscribers), frames);
    let (after, _) = session.route_agent_response(resp);
    let reply = ResponseView {
        id: pending.original_id,
        result: match resp.result {
            Some(result) => if pending.decorate_session_list {
                Some(ended.index.decorated_list(result))
            } else {
                Some(result)
            },
            None => None,
        },
        error: resp.error,
    };
    let message = OutMsgView::Frame(json::json_text(reply.json()));
    assert(after == ended.deliver_response(pending, resp));
    hearing::lemma_told_then(session, ended, frames, pending.peer_id, message);
    assert(after.outbox.take((session.outbox.len() + heard.len()) as int) =~= session.outbox
        + heard);
    if pending.deliver_response && !pending.decorate_session_list {
        assert(reply == (ResponseView { id: pending.original_id, ..resp }));
    }
}

proof fn lemma_next_turn_starts(session: SessionView, resp: ResponseView, pending: PendingView)
    requires
        session.sound(),
        session.active_turn_mux_id is Some,
        session.active_turn_mux_id->0 <= i64::MAX,
        resp.id == IdView::Number(session.active_turn_mux_id->0 as i64),
        assoc::lookup(session.pending, session.active_turn_mux_id->0) == Some(pending),
        pending.handshake is None,
        session.queued_prompts.len() > 0,
    ensures
        ({
            let (after, write) = session.route_agent_response(resp);
            let turn_id = session.active_amux_turn_id->0;
            let frames = end_frames(session, turn_id, pending.queue_item_id, resp.result);
            let heard = rounds(open_peers(session.subscribers), frames);
            let item = session.queued_prompts[0];
            &&& begins(after.outbox, session.outbox, heard)
            &&& write is Some
            &&& !session.meta_propagate ==> write == Some(
                json::json_text(
                    RequestView {
                        id: IdView::Number(session.next_mux_id as i64),
                        method: "session/prompt"@,
                        params: Some(asked_of_agent(item)),
                    }.json(),
                ),
            )
            &&& after.queued_prompts == session.queued_prompts.skip(1)
            &&& after.active_turn_mux_id == Some(session.next_mux_id)
            &&& after.active_turn_prompt_text == Some(item.prompt_text)
        }),
{
    let ended = lemma_between_turns(session, resp, pending);
    let turn_id = session.active_amux_turn_id->0;
    let frames = end_frames(session, turn_id, pending.queue_item_id, resp.result);
    let heard = rounds(open_peers(session.subscribers), frames);
    let (after, _) = session.route_agent_response(resp);
    lemma_submit_only_adds(ended);
    law_first_waiting_prompt_is_submitted(ended);
    assert(after.outbox.take((session.outbox.len() + heard.len()) as int) =~= session.outbox
        + heard);
}

/// Submitting a waiting prompt sends nothing back that was sent before.
proof fn lemma_submit_only_adds(session: SessionView)
    requires
        session.queued_prompts.len() > 0,
    ensures
        ({
            let after = session.submit_next_queued_prompt().0;
            &&& after.outbox.len() >= session.outbox.len()
            &&& forall|i: int|
                0 <= i < session.outbox.len() ==> after.outbox[i] == #[trigger] session.outbox[i]
        }),
{
    law_first_waiting_prompt_is_submitted(session);
}

} // verus!

use std::time::Duration;

use amux::cli::{ClientToolPolicy, ReplayTurns};
use amux::mock::{MockAgent, MockOptions, MockOutput};
use amux::multiplex::subscriber::{OutMsg, Subscriber};
use amux::protocol::amux::AmuxTurnId;
use amux::protocol::attach::ReplayOrder;
use amux::session::actor::{
    ExitReason, SessionActor, SessionMsg, SessionOptions, SessionStep, TtlTimer,
};
use amux::session::life::{AgentShutdown, SessionRun};
use amux::session::metadata::SessionListMetadataIndex;
use amux::session::state::{
    AttachError, QueuedPrompt, QueuedPromptKind, SessionInner,
};
use serde_json::Value;

const INITIALIZE: &str = r#"{"jsonrpc":"2.0","id":1,"method":"initialize"}"#;
const NEW: &str = r#"{"jsonrpc":"2.0","id":2,"method":"session/new"}"#;

fn value(text: &str) -> Value {
    serde_json::from_str(text).unwrap()
}

fn mock() -> MockOptions {
    MockOptions {
        session_id: "sess-mock".to_string(),
        emit_permission: false,
        prompt_delay_ms: 0,
        echo_responses: false,
        echo_cancels: false,
        cancel_permission: false,
        session_list: false,
    }
}

fn options() -> SessionOptions {
    SessionOptions {
        replay_policy: ReplayTurns::Unbounded,
        session_ttl: Duration::from_secs(60),
        meta_propagate: false,
        client_tool_policy: ClientToolPolicy::default(),
        agent_cwd: "/work".to_string(),
    }
}

fn peer(id: &str) -> Subscriber {
    Subscriber::new(
        id.to_string(),
        Some(format!("name of {id}")),
        None,
        ReplayOrder::Chronological,
    )
}

/// A session, an agent behind it, and what everybody was sent.
struct Mux {
    actor: SessionActor,
    agent: MockAgent,
    /// What the agent wrote and the session has not seen yet.
    stdout: Vec<Vec<u8>>,
    /// Whether the agent's lines wait until they are let through.
    held: bool,
    to_agent: Vec<Value>,
    sent: Vec<(String, OutMsg)>,
}

impl Mux {
    fn start(options: &SessionOptions, mock: MockOptions, first: &str) -> Mux {
        let actor = SessionActor::start_at(
            "room".to_string(),
            options,
            SessionListMetadataIndex::new(),
            peer(first),
            "2026-01-02T03:04:05.000000006Z".to_string(),
        );
        let mut mux = Mux {
            actor,
            agent: MockAgent::new(mock),
            stdout: vec![],
            held: false,
            to_agent: vec![],
            sent: vec![],
        };
        mux.collect();
        mux
    }

    /// A session whose first peer, A, has shaken hands.
    fn ready(mock: MockOptions) -> Mux {
        let mut mux = Mux::start(&options(), mock, "A");
        mux.send("A", INITIALIZE);
        mux.send("A", NEW);
        mux.drain();
        mux
    }

    /// Like `ready`, with B attached too, and an agent whose lines wait.
    fn busy(mock: MockOptions) -> Mux {
        let mut mux = Mux::ready(mock);
        mux.attach("B");
        mux.drain();
        mux.held = true;
        mux
    }

    fn collect(&mut self) {
        for delivery in self.actor.inner.take_outbox() {
            self.sent.push((delivery.peer_id, delivery.message));
        }
    }

    fn step(&mut self, msg: SessionMsg) -> SessionStep {
        let mut step = self.actor.step(msg);
        self.collect();
        for line in std::mem::take(&mut step.writes_to_agent) {
            self.to_agent.push(serde_json::from_slice(&line).unwrap());
            for out in self.agent.line(std::str::from_utf8(&line).unwrap()) {
                if let MockOutput::Line(line) = out {
                    self.stdout.push(line);
                }
            }
        }
        if !self.held {
            self.release();
        }
        step
    }

    /// Lets the agent's lines through.
    fn release(&mut self) {
        while !self.stdout.is_empty() {
            let line = self.stdout.remove(0);
            self.step(SessionMsg::AgentStdoutLine(line));
        }
    }

    fn attach(&mut self, id: &str) -> Result<(), AttachError> {
        self.step(SessionMsg::Attach {
            subscriber: peer(id),
        })
        .attached
        .unwrap()
    }

    fn send(&mut self, id: &str, frame: &str) {
        self.step(SessionMsg::InboundFromSubscriber {
            peer_id: id.to_string(),
            bytes: frame.as_bytes().to_vec(),
        });
    }

    fn agent_says(&mut self, line: &str) -> SessionStep {
        self.step(SessionMsg::AgentStdoutLine(line.as_bytes().to_vec()))
    }

    fn detach(&mut self, id: &str) -> SessionStep {
        self.step(SessionMsg::Detach {
            peer_id: id.to_string(),
        })
    }

    fn drain(&mut self) {
        self.sent.clear();
        self.to_agent.clear();
    }

    /// The frames that a peer was sent.
    fn frames(&self, id: &str) -> Vec<Value> {
        self.sent
            .iter()
            .filter(|(to, _)| to == id)
            .filter_map(|(_, message)| match message {
                OutMsg::Frame(bytes) => Some(serde_json::from_slice(bytes).unwrap()),
                OutMsg::Close { .. } => None,
            })
            .collect()
    }

    fn methods(&self, id: &str) -> Vec<String> {
        self.frames(id)
            .iter()
            .filter_map(|frame| frame["method"].as_str().map(str::to_string))
            .collect()
    }

    fn all(&self, id: &str, method: &str) -> Vec<Value> {
        self.frames(id)
            .into_iter()
            .filter(|frame| frame["method"] == method)
            .collect()
    }

    fn one(&self, id: &str, method: &str) -> Value {
        let mut found = self.all(id, method);
        assert_eq!(found.len(), 1, "{method} for {id}: {:?}", self.frames(id));
        found.remove(0)
    }

    /// The answer to a request.
    fn answer(&self, id: &str, request: &str) -> Value {
        let wanted = value(request);
        self.frames(id)
            .into_iter()
            .find(|frame| frame.get("method").is_none() && frame["id"] == wanted)
            .unwrap_or_else(|| panic!("no answer to {request} for {id}: {:?}", self.frames(id)))
    }

    fn update(&self, id: &str, kind: &str) -> Value {
        self.all(id, "session/update")
            .into_iter()
            .find(|frame| frame["params"]["update"]["type"] == kind)
            .unwrap_or_else(|| panic!("no {kind} for {id}"))
    }

    fn snapshot(&mut self) -> Value {
        let step = self.step(SessionMsg::Snapshot);
        serde_json::from_slice(&step.snapshot.unwrap().to_json().to_vec()).unwrap()
    }
}

fn prompt(id: u64, text: &str) -> String {
    format!(
        r#"{{"jsonrpc":"2.0","id":{id},"method":"session/prompt","params":{{"sessionId":"sess-mock","prompt":[{{"type":"text","text":"{text}"}}]}}}}"#
    )
}

fn control(id: u64, method: &str, text: &str) -> String {
    format!(
        r#"{{"jsonrpc":"2.0","id":{id},"method":"amux/{method}","params":{{"sessionId":"sess-mock","text":"{text}"}}}}"#
    )
}

#[test]
fn rebind_canonical_session_rewrites_queued_prompt_session_ids() {
    let mut inner = SessionInner::new(
        "test-room".to_string(),
        "/tmp".to_string(),
        ReplayTurns::Disabled,
        false,
        ClientToolPolicy::default(),
        SessionListMetadataIndex::new(),
    );
    inner.queued_prompts.push(QueuedPrompt {
        queue_item_id: Some("q-1".to_string()),
        peer_id: "A".to_string(),
        session_id: "sess-old".to_string(),
        prompt_text: "queued".to_string(),
        kind: QueuedPromptKind::Queue,
    });
    inner.queued_prompts.push(QueuedPrompt {
        queue_item_id: None,
        peer_id: "B".to_string(),
        session_id: "sess-old".to_string(),
        prompt_text: "steered".to_string(),
        kind: QueuedPromptKind::HardSteer {
            supersedes_turn_id: AmuxTurnId(1),
        },
    });

    inner.rebind_canonical_session("sess-loaded");

    assert!(
        inner
            .queued_prompts
            .iter()
            .all(|item| item.session_id == "sess-loaded"),
        "session/load must retarget queued prompts to the newly loaded canonical session"
    );
}

#[test]
fn subscriber_receives_agent_context_cwd_on_attach() {
    let mux = Mux::start(&options(), mock(), "A");
    let context = mux.one("A", "amux/session_context");
    assert_eq!(context["params"]["roomId"], "room");
    assert_eq!(context["params"]["cwd"], "/work");
}

#[test]
fn initialize_caches_for_late_joiners() {
    let mut mux = Mux::start(&options(), mock(), "A");
    mux.send("A", INITIALIZE);
    let first = mux.answer("A", "1");
    assert_eq!(first["result"]["_invocation"], 1);
    mux.attach("B").unwrap();
    mux.drain();
    mux.send("B", r#"{"jsonrpc":"2.0","id":"b","method":"initialize"}"#);
    assert_eq!(mux.answer("B", "\"b\"")["result"], first["result"]);
    assert!(mux.to_agent.is_empty());
    assert!(mux.frames("A").is_empty());
}

#[test]
fn session_new_caches_for_late_joiners() {
    let mut mux = Mux::ready(mock());
    mux.attach("B").unwrap();
    mux.drain();
    mux.send("B", NEW);
    let answer = mux.answer("B", "2");
    assert_eq!(answer["result"]["sessionId"], "sess-mock");
    assert_eq!(answer["result"]["_invocation"], 1);
    assert!(mux.to_agent.is_empty());
}

#[test]
fn prompt_notifications_broadcast_response_routes_to_originator() {
    let mut mux = Mux::ready(mock());
    mux.attach("B").unwrap();
    mux.drain();
    mux.send("A", &prompt(7, "hi"));
    assert_eq!(mux.answer("A", "7")["result"]["stopReason"], "end_turn");
    for id in ["A", "B"] {
        let chunks: Vec<Value> = mux
            .all(id, "session/update")
            .into_iter()
            .filter(|frame| frame["params"]["update"].get("kind").is_some())
            .map(|frame| frame["params"]["update"]["content"]["text"].clone())
            .collect();
        assert_eq!(chunks, vec![value("\"hello \""), value("\"world\"")]);
    }
    assert!(mux
        .frames("B")
        .iter()
        .all(|frame| frame.get("method").is_some()));
}

#[test]
fn original_id_is_preserved_across_mux() {
    let mut mux = Mux::ready(mock());
    mux.attach("B").unwrap();
    mux.drain();
    mux.held = true;
    mux.send("A", r#"{"jsonrpc":"2.0","id":7,"method":"x/one"}"#);
    mux.send("B", r#"{"jsonrpc":"2.0","id":7,"method":"x/two"}"#);
    mux.send("B", r#"{"jsonrpc":"2.0","id":"seven","method":"x/three"}"#);
    let ids: Vec<Value> = mux.to_agent.iter().map(|f| f["id"].clone()).collect();
    assert_eq!(ids, vec![value("3"), value("4"), value("5")]);
    mux.agent_says(r#"{"jsonrpc":"2.0","id":4,"result":"two"}"#);
    mux.agent_says(r#"{"jsonrpc":"2.0","id":5,"error":{"code":-1,"message":"three"}}"#);
    mux.agent_says(r#"{"jsonrpc":"2.0","id":3,"result":"one"}"#);
    mux.agent_says(r#"{"jsonrpc":"2.0","id":3,"result":"again"}"#);
    assert_eq!(mux.frames("A").len(), 1);
    assert_eq!(mux.answer("A", "7")["result"], "one");
    assert_eq!(mux.answer("B", "7")["result"], "two");
    assert_eq!(mux.answer("B", "\"seven\"")["error"]["message"], "three");
}

#[test]
fn amux_peer_joined_and_peer_left() {
    let mut mux = Mux::ready(mock());
    mux.attach("B").unwrap();
    let joined = mux.one("A", "amux/peer_joined");
    assert_eq!(joined["params"]["peerId"], "B");
    assert_eq!(joined["params"]["peerName"], "name of B");
    mux.drain();
    let step = mux.detach("B");
    assert_eq!(step.timer, TtlTimer::Keep);
    assert_eq!(mux.one("A", "amux/peer_left")["params"]["peerId"], "B");
    let gone = mux.update("A", "client_disconnected");
    assert_eq!(gone["params"]["update"]["client"]["clientId"], "B");
    assert_eq!(gone["params"]["update"]["client"]["name"], "name of B");
}

#[test]
fn a_peer_id_is_taken_once() {
    let mut mux = Mux::ready(mock());
    assert_eq!(mux.attach("A"), Err(AttachError::PeerIdInUse));
    assert!(mux.sent.is_empty());
}

#[test]
fn debug_sessions_reflects_live_state() {
    let mut mux = Mux::busy(mock());
    mux.send("A", &prompt(7, "hi"));
    let shown = mux.snapshot();
    assert_eq!(shown["sessionId"], "room");
    assert_eq!(shown["agentCwd"], "/work");
    assert_eq!(shown["pendingRequestCount"], 1);
    assert_eq!(shown["initializeCached"], true);
    assert_eq!(shown["cachedSessionId"], "sess-mock");
    assert_eq!(shown["activeTurnMuxId"], 3);
    assert_eq!(shown["activeAmuxTurnId"], "at-1");
    assert_eq!(shown["drivingSubscriber"], "A");
    assert_eq!(shown["subprocessDead"], false);
    assert_eq!(shown["ttlPending"], false);
    assert_eq!(shown["replayGeneration"], 0);
    assert_eq!(shown["lastReplayReset"], Value::Null);
    assert_eq!(shown["nextMuxId"], 4);
    assert_eq!(shown["nextAmuxTurnId"], 2);
    let subscribers = shown["subscribers"].as_array().unwrap();
    assert_eq!(subscribers.len(), 2);
    assert_eq!(subscribers[0]["peerId"], "A");
    assert_eq!(subscribers[0]["isDriving"], true);
    assert_eq!(subscribers[0]["role"], Value::Null);
    assert_eq!(subscribers[1]["isDriving"], false);
}

#[test]
fn ttl_grace_cancelled_by_reconnect() {
    let mut mux = Mux::ready(mock());
    let left = mux.detach("A");
    assert_eq!(left.timer, TtlTimer::Start);
    assert!(left.exit.is_none());
    assert!(mux.actor.ttl_pending);
    let back = mux.step(SessionMsg::Attach {
        subscriber: peer("A"),
    });
    assert_eq!(back.timer, TtlTimer::Stop);
    assert!(!mux.actor.ttl_pending);
    assert!(mux.step(SessionMsg::TtlElapsed).exit.is_none());
}

#[test]
fn who_comes_back_finds_the_session_as_it_was() {
    let mut mux = Mux::ready(mock());
    mux.send("A", &prompt(5, "hi"));
    mux.detach("A");
    let next_mux_id = mux.actor.inner.next_mux_id;
    let logged = mux.actor.inner.replay_log.as_ref().unwrap().len();
    mux.attach("A").unwrap();
    assert_eq!(mux.actor.inner.next_mux_id, next_mux_id);
    assert_eq!(
        mux.actor.inner.replay_log.as_ref().unwrap().len(),
        logged + 1
    );
    mux.drain();
    mux.to_agent.clear();
    mux.send(
        "A",
        r#"{"jsonrpc":"2.0","id":9,"method":"initialize","params":{}}"#,
    );
    assert!(mux.to_agent.is_empty());
    assert!(mux.answer("A", "9").get("result").is_some());
}

#[test]
fn ttl_grace_expires_when_idle() {
    let mut mux = Mux::ready(mock());
    mux.detach("A");
    assert_eq!(
        mux.step(SessionMsg::TtlElapsed).exit,
        Some(ExitReason::TtlExpired)
    );
}

#[test]
fn agent_death_closes_subscribers_with_1011() {
    let mut mux = Mux::ready(mock());
    mux.attach("B").unwrap();
    mux.drain();
    assert_eq!(
        mux.step(SessionMsg::AgentDied).exit,
        Some(ExitReason::AgentDied)
    );
    mux.actor.finish(ExitReason::AgentDied);
    mux.collect();
    let closes: Vec<(String, u16, String)> = mux
        .sent
        .iter()
        .map(|(to, message)| match message {
            OutMsg::Close { code, reason } => (to.clone(), *code, reason.clone()),
            other => panic!("unexpected: {other:?}"),
        })
        .collect();
    let reason = "agent subprocess exited".to_string();
    assert_eq!(
        closes,
        vec![
            ("A".to_string(), 1011, reason.clone()),
            ("B".to_string(), 1011, reason)
        ]
    );
    assert!(mux.actor.inner.subscribers.is_empty());
}

#[test]
fn a_closed_channel_ends_the_session() {
    let mut mux = Mux::ready(mock());
    assert_eq!(
        mux.step(SessionMsg::ChannelClosed).exit,
        Some(ExitReason::ChannelClosed)
    );
}

#[test]
fn losing_the_last_peer_ends_the_session() {
    let mut mux = Mux::ready(mock());
    mux.actor.inner.outbound_closed("A");
    let step = mux.agent_says(r#"{"jsonrpc":"2.0","method":"x/note"}"#);
    assert_eq!(step.exit, Some(ExitReason::LastSubscriberLeft));
    assert!(mux.sent.is_empty());
}

#[test]
fn replay_log_delivers_history_to_late_joiner() {
    let mut mux = Mux::ready(mock());
    mux.send("A", &prompt(7, "hi"));
    mux.drain();
    mux.attach("B").unwrap();
    assert_eq!(
        mux.methods("B"),
        vec![
            "amux/session_context",
            "amux/peer_joined",
            "amux/turn_started",
            "session/update",
            "session/update",
            "session/update",
            "amux/turn_complete",
            "session/update",
        ]
    );
    assert_eq!(mux.all("B", "amux/peer_joined")[0]["params"]["peerId"], "A");
    assert_eq!(mux.methods("A"), vec!["amux/peer_joined"]);
}

#[test]
fn replay_log_adds_mux_record_metadata_to_late_join_frames() {
    let mut mux = Mux::ready(mock());
    mux.send("A", &prompt(7, "hi"));
    mux.drain();
    mux.attach("B").unwrap();
    let updates = mux.all("B", "session/update");
    assert_eq!(updates.len(), 4);
    let mut last = 0;
    for update in &updates {
        assert_eq!(update["params"]["sessionId"], "sess-mock");
        let amux = &update["params"]["_meta"]["amux"];
        assert_eq!(amux["recordedAt"], "2026-01-02T03:04:05.000000006Z");
        let seq = amux["replaySeq"].as_u64().unwrap();
        assert!(seq > last);
        last = seq;
    }
}

#[test]
fn replay_log_merges_amux_metadata_without_clobbering_existing_meta() {
    let mut mux = Mux::ready(mock());
    let line = r#"{"jsonrpc":"2.0","method":"session/update","params":{"sessionId":"s","_meta":{"traceparent":"00-abc","zed.dev/debugMode":true,"amux":{"own":1}}}}"#;
    mux.agent_says(line);
    assert_eq!(mux.one("A", "session/update"), value(line));
    mux.drain();
    mux.attach("B").unwrap();
    let meta = mux.one("B", "session/update")["params"]["_meta"].clone();
    assert_eq!(meta["traceparent"], "00-abc");
    assert_eq!(meta["zed.dev/debugMode"], true);
    assert_eq!(meta["amux"]["own"], 1);
    assert!(meta["amux"]["recordedAt"].is_string());
    assert!(meta["amux"]["replaySeq"].is_u64());
}

#[test]
fn replay_turns_disabled_emits_no_history() {
    let mut mux = Mux::start(
        &SessionOptions {
            replay_policy: ReplayTurns::Disabled,
            ..options()
        },
        mock(),
        "A",
    );
    mux.send("A", INITIALIZE);
    mux.send("A", &prompt(7, "hi"));
    mux.drain();
    mux.attach("B").unwrap();
    assert_eq!(mux.methods("B"), vec!["amux/session_context"]);
    assert_eq!(mux.snapshot()["replayLogLen"], Value::Null);
}

#[test]
fn amux_turn_started_and_complete() {
    let mut mux = Mux::ready(mock());
    mux.attach("B").unwrap();
    mux.drain();
    mux.send("A", &prompt(7, "hi"));
    for id in ["A", "B"] {
        let started = mux.one(id, "amux/turn_started");
        assert_eq!(started["params"]["peerId"], "A");
        assert_eq!(started["params"]["roomId"], "room");
        assert_eq!(started["params"]["amuxTurnId"], "at-1");
        assert_eq!(
            started["params"]["content"],
            value(r#"[{"type":"text","text":"hi"}]"#)
        );
        let complete = mux.one(id, "amux/turn_complete");
        assert_eq!(complete["params"]["amuxTurnId"], "at-1");
        assert_eq!(complete["params"]["stopReason"], "end_turn");
        let received = mux.update(id, "prompt_received");
        assert_eq!(received["params"]["sessionId"], "sess-mock");
        assert_eq!(received["params"]["update"]["sentBy"]["clientId"], "A");
        assert_eq!(
            mux.update(id, "turn_complete")["params"]["update"]["stopReason"],
            "end_turn"
        );
    }
}

#[test]
fn concurrent_prompt_rejected_with_32001() {
    let mut mux = Mux::busy(mock());
    mux.send("A", &prompt(100, "hi"));
    let before = mux.to_agent.len();
    mux.send("B", &prompt(200, "/steer revise"));
    assert_eq!(mux.to_agent.len(), before);
    let rejection = mux.answer("B", "200");
    assert_eq!(rejection["error"]["code"], -32001);
    assert_eq!(
        rejection["error"]["message"],
        "session busy: another turn is in flight"
    );
    for id in ["A", "B"] {
        let busy = mux.one(id, "amux/session_busy");
        assert_eq!(busy["params"]["busy"], true);
        assert_eq!(busy["params"]["heldBy"], "A");
    }
    mux.release();
    mux.drain();
    mux.held = false;
    mux.send("B", &prompt(201, "again"));
    assert_eq!(mux.answer("B", "201")["result"]["stopReason"], "end_turn");
}

#[test]
fn amux_steer_active_turn_hard_replaces_after_cancel() {
    let mut mux = Mux::busy(mock());
    mux.send("A", &prompt(100, "original mission"));
    mux.send("B", &control(200, "steer_active_turn", "revise the approach"));
    let accepted = mux.answer("B", "200");
    assert_eq!(accepted["result"]["accepted"], true);
    assert_eq!(accepted["result"]["mode"], "hard");
    assert_eq!(accepted["result"]["supersedesTurnId"], "at-1");
    let cancel = mux.to_agent.last().unwrap();
    assert_eq!(cancel["method"], "session/cancel");
    assert_eq!(cancel["params"]["sessionId"], "sess-mock");
    mux.release();
    for id in ["A", "B"] {
        let cancelled = mux.one(id, "amux/turn_cancelled");
        assert_eq!(cancelled["params"]["cancelledBy"], "B");
        assert_eq!(cancelled["params"]["originalDriver"], "A");
        assert_eq!(cancelled["params"]["reason"], "hard_steer");
        let steered = mux.one(id, "amux/control_submitted");
        assert_eq!(steered["params"]["kind"], "steer");
        assert_eq!(steered["params"]["mode"], "hard");
        let started = mux.all(id, "amux/turn_started");
        assert_eq!(started.len(), 2);
        assert_eq!(started[1]["params"]["peerId"], "B");
        assert_eq!(started[1]["params"]["supersedesTurnId"], "at-1");
        assert_eq!(
            started[1]["params"]["content"][0]["text"],
            "Active turn steered by peer `B` (supersedes at-1). Use the steer below to answer the original prompt.\n\nOriginal:\noriginal mission\n\nSteer:\nrevise the approach"
        );
        assert_eq!(mux.all(id, "amux/turn_complete").len(), 2);
    }
}

#[test]
fn amux_steer_active_turn_without_active_turn_submits_prompt() {
    let mut mux = Mux::ready(mock());
    mux.attach("B").unwrap();
    mux.drain();
    mux.send("B", &control(200, "steer_active_turn", "start from idle steer"));
    let answer = mux.answer("B", "200");
    assert_eq!(answer["result"]["accepted"], true);
    assert_eq!(answer["result"]["mode"], "prompt");
    assert_eq!(answer["result"]["status"], "submitted");
    assert_eq!(answer["result"]["amuxTurnId"], "at-1");
    assert!(answer["result"].get("supersedesTurnId").is_none());
    for id in ["A", "B"] {
        let steered = mux.one(id, "amux/control_submitted");
        assert_eq!(steered["params"]["mode"], "prompt");
        assert_eq!(steered["params"]["amuxTurnId"], "at-1");
        assert_eq!(steered["params"]["text"], "start from idle steer");
        assert!(mux.all(id, "amux/turn_cancelled").is_empty());
        assert!(mux.all(id, "amux/queue_item_added").is_empty());
        assert!(mux.all(id, "amux/queue_item_submitted").is_empty());
        let started = mux.one(id, "amux/turn_started");
        assert_eq!(started["params"]["peerId"], "B");
        assert!(started["params"].get("supersedesTurnId").is_none());
        assert_eq!(
            mux.one(id, "amux/turn_complete")["params"]["amuxTurnId"],
            "at-1"
        );
    }
}

#[test]
fn amux_steer_active_turn_rejects_second_pending_hard_steer_until_replacement_pops() {
    let mut mux = Mux::busy(mock());
    mux.send("A", &prompt(100, "original"));
    mux.send("B", &control(200, "steer_active_turn", "first steer"));
    mux.send("B", &control(201, "steer_active_turn", "second steer too soon"));
    let second = mux.answer("B", "201");
    assert_eq!(second["error"]["code"], -32002);
    assert_eq!(
        second["error"]["message"],
        "a hard steer is already pending for this turn"
    );
    // Only the first turn's lines: the replacement stays active.
    let first: Vec<Vec<u8>> = mux.stdout.drain(..).collect();
    for line in first {
        mux.step(SessionMsg::AgentStdoutLine(line));
    }
    assert_eq!(mux.snapshot()["activeAmuxTurnId"], "at-2");
    mux.send("B", &control(202, "steer_active_turn", "steer replacement"));
    let third = mux.answer("B", "202");
    assert_eq!(third["result"]["mode"], "hard");
    assert_eq!(third["result"]["supersedesTurnId"], "at-2");
}

#[test]
fn amux_queue_prompt_is_mux_owned_and_replays_lifecycle() {
    let mut mux = Mux::busy(mock());
    mux.send("A", &prompt(100, "hi"));
    mux.send("B", &control(200, "queue_prompt", "do this next"));
    let answer = mux.answer("B", "200");
    assert_eq!(answer["result"]["queueItemId"], "q-1");
    assert_eq!(answer["result"]["status"], "queued");
    mux.release();
    for id in ["A", "B"] {
        let added = mux.one(id, "amux/queue_item_added");
        assert_eq!(added["params"]["queueItemId"], "q-1");
        assert_eq!(added["params"]["peerId"], "B");
        assert_eq!(added["params"]["text"], "do this next");
        let submitted = mux.one(id, "amux/queue_item_submitted");
        assert_eq!(submitted["params"]["amuxTurnId"], "at-2");
        let completed = mux.one(id, "amux/queue_item_completed");
        assert_eq!(completed["params"]["queueItemId"], "q-1");
        assert_eq!(completed["params"]["stopReason"], "end_turn");
        let started = mux.all(id, "amux/turn_started");
        assert_eq!(started.len(), 2);
        assert_eq!(started[1]["params"]["peerId"], "B");
    }
    assert_eq!(
        mux.to_agent.last().unwrap()["params"],
        value(r#"{"sessionId":"sess-mock","prompt":[{"type":"text","text":"do this next"}]}"#)
    );
    mux.drain();
    mux.attach("C").unwrap();
    let methods = mux.methods("C");
    for expected in [
        "amux/queue_item_added",
        "amux/queue_item_submitted",
        "amux/queue_item_completed",
    ] {
        assert!(methods.iter().any(|method| method == expected));
    }
    assert!(mux.frames("C").iter().all(|frame| frame["id"] != 200));
}

#[test]
fn amux_queue_prompt_without_active_turn_submits_immediately() {
    let mut mux = Mux::ready(mock());
    mux.attach("B").unwrap();
    mux.drain();
    mux.send("B", &control(200, "queue_prompt", "start from idle"));
    let answer = mux.answer("B", "200");
    assert_eq!(answer["result"]["queueItemId"], "q-1");
    assert_eq!(answer["result"]["status"], "submitted");
    for id in ["A", "B"] {
        assert_eq!(
            mux.one(id, "amux/queue_item_submitted")["params"]["amuxTurnId"],
            "at-1"
        );
        assert_eq!(
            mux.one(id, "amux/queue_item_completed")["params"]["amuxTurnId"],
            "at-1"
        );
    }
}

#[test]
fn amux_queue_prompt_rejects_seventh_pending_item() {
    let mut mux = Mux::busy(mock());
    mux.send("A", &prompt(100, "hold active"));
    for i in 1..=6 {
        mux.send("B", &control(200 + i, "queue_prompt", &format!("queued {i}")));
        let answer = mux.answer("B", &format!("{}", 200 + i));
        assert_eq!(answer["result"]["status"], "queued");
        assert_eq!(answer["result"]["queueItemId"], format!("q-{i}"));
    }
    mux.send("B", &control(300, "queue_prompt", "queued 7"));
    let seventh = mux.answer("B", "300");
    assert_eq!(seventh["error"]["code"], -32003);
    assert_eq!(seventh["error"]["message"], "queue full");
    mux.release();
    let started: Vec<Value> = mux
        .all("A", "amux/turn_started")
        .iter()
        .map(|frame| frame["params"]["content"][0]["text"].clone())
        .collect();
    assert_eq!(
        started,
        vec![
            "hold active",
            "queued 1",
            "queued 2",
            "queued 3",
            "queued 4",
            "queued 5",
            "queued 6"
        ]
    );
}

#[test]
fn amux_unqueue_prompt_removes_pending_item_and_replays_removal() {
    let mut mux = Mux::busy(mock());
    mux.send("A", &prompt(100, "active"));
    mux.send("B", &control(200, "queue_prompt", "do not run"));
    mux.send(
        "A",
        r#"{"jsonrpc":"2.0","id":300,"method":"amux/unqueue_prompt","params":{"queueItemId":" q-1 "}}"#,
    );
    let removed = mux.answer("A", "300");
    assert_eq!(removed["result"]["queueItemId"], "q-1");
    assert_eq!(removed["result"]["status"], "removed");
    mux.send(
        "A",
        r#"{"jsonrpc":"2.0","id":301,"method":"amux/unqueue_prompt","params":{"queueItemId":"q-1"}}"#,
    );
    assert_eq!(
        mux.answer("A", "301")["error"]["message"],
        "queue item not found"
    );
    mux.release();
    for id in ["A", "B"] {
        let removal = mux.one(id, "amux/queue_item_removed");
        assert_eq!(removal["params"]["removedBy"], "A");
        assert!(mux.all(id, "amux/queue_item_submitted").is_empty());
    }
    mux.drain();
    mux.attach("C").unwrap();
    assert_eq!(
        mux.one("C", "amux/queue_item_removed")["params"]["queueItemId"],
        "q-1"
    );
}

#[test]
fn amux_disconnected_queue_owner_persists_without_becoming_driver() {
    let mut mux = Mux::busy(mock());
    mux.send("A", &prompt(100, "active"));
    mux.send("B", &control(200, "queue_prompt", "queued after disconnect"));
    mux.detach("B");
    let orphaned = mux.one("A", "amux/queue_item_orphaned");
    assert_eq!(orphaned["params"]["queueItemId"], "q-1");
    assert_eq!(orphaned["params"]["peerId"], "B");
    let first: Vec<Vec<u8>> = mux.stdout.drain(..).collect();
    for line in first {
        mux.step(SessionMsg::AgentStdoutLine(line));
    }
    let started = mux.all("A", "amux/turn_started");
    assert_eq!(started[1]["params"]["amuxTurnId"], "at-2");
    assert_eq!(started[1]["params"]["peerId"], "B");
    let shown = mux.snapshot();
    assert_eq!(shown["drivingSubscriber"], "A");
    assert_eq!(shown["subscribers"].as_array().unwrap().len(), 1);
}

#[test]
fn controls_say_what_is_wrong_with_them() {
    let mut mux = Mux::ready(mock());
    let mut refusal = |method: &str, params: &str| {
        mux.drain();
        mux.send(
            "A",
            &format!(
                r#"{{"jsonrpc":"2.0","id":9,"method":"amux/{method}","params":{params}}}"#
            ),
        );
        let error = mux.answer("A", "9")["error"].clone();
        assert_eq!(error["code"], -32602);
        assert!(mux.to_agent.is_empty());
        error["message"].as_str().unwrap().to_string()
    };
    assert_eq!(
        refusal("queue_prompt", "[]"),
        "amux control params must be an object"
    );
    assert_eq!(
        refusal("queue_prompt", r#"{"text":1}"#),
        "amux control params.text must be a string"
    );
    assert_eq!(
        refusal("steer_active_turn", r#"{"prompt":[{"type":"image"}]}"#),
        "amux control params.text or text-only params.prompt is required"
    );
    assert_eq!(
        refusal("steer_active_turn", r#"{"text":" \n "}"#),
        "amux control text must be non-empty"
    );
    assert_eq!(
        refusal("queue_prompt", r#"{"text":"x","sessionId":7}"#),
        "amux control params.sessionId must be a string when present"
    );
    assert_eq!(
        refusal("queue_prompt", r#"{"text":"x","sessionId":"other"}"#),
        "amux control params.sessionId must match the active or canonical sessionId"
    );
    assert_eq!(
        refusal("unqueue_prompt", "[]"),
        "amux/unqueue_prompt params must be an object"
    );
    assert_eq!(
        refusal("unqueue_prompt", "{}"),
        "amux/unqueue_prompt params.queueItemId must be a string"
    );
    assert_eq!(
        refusal("unqueue_prompt", r#"{"queueItemId":" "}"#),
        "amux/unqueue_prompt params.queueItemId must be non-empty"
    );
    assert_eq!(
        refusal("unqueue_prompt", r#"{"queueItemId":"q-9"}"#),
        "queue item not found"
    );
}

#[test]
fn control_without_a_session_id_is_refused() {
    let mut mux = Mux::start(&options(), mock(), "A");
    mux.send("A", r#"{"jsonrpc":"2.0","id":9,"method":"amux/queue_prompt","params":{"text":"x"}}"#);
    assert_eq!(
        mux.answer("A", "9")["error"]["message"],
        "amux control could not determine an ACP sessionId"
    );
}

#[test]
fn agent_request_broadcasts_to_every_subscriber() {
    let mut mux = Mux::busy(MockOptions {
        emit_permission: true,
        ..mock()
    });
    mux.send("A", &prompt(7, "hi"));
    let line = mux.stdout.remove(0);
    mux.step(SessionMsg::AgentStdoutLine(line));
    for id in ["A", "B"] {
        assert_eq!(mux.one(id, "session/request_permission")["id"], 10001);
        let opened = mux.one(id, "amux/agent_request_opened");
        assert_eq!(opened["params"]["requestId"], 10001);
        assert_eq!(opened["params"]["amuxTurnId"], "at-1");
    }
}

#[test]
fn client_tools_are_blocked_by_default() {
    for method in ["fs/read_text_file", "fs/write_text_file", "terminal/create"] {
        let mut mux = Mux::busy(mock());
        mux.agent_says(&format!(
            r#"{{"jsonrpc":"2.0","id":"t","method":"{method}","params":{{}}}}"#
        ));
        assert!(mux.sent.is_empty());
        let refusal = &mux.to_agent[0];
        assert_eq!(refusal["id"], "t");
        assert_eq!(refusal["error"]["code"], -32000);
        assert_eq!(
            refusal["error"]["message"],
            format!("client tool request blocked by acp-mux policy: {method}")
        );
        assert_eq!(refusal["error"]["data"]["reason"], "client_tool_blocked");
        assert_eq!(refusal["error"]["data"]["method"], method);
    }
}

#[test]
fn unsafe_debug_client_tool_broadcast_preserves_raw_fanout() {
    let mut mux = Mux::start(
        &SessionOptions {
            client_tool_policy: ClientToolPolicy::unsafe_debug_broadcast(),
            ..options()
        },
        mock(),
        "A",
    );
    mux.attach("B").unwrap();
    mux.drain();
    mux.agent_says(r#"{"jsonrpc":"2.0","id":"t","method":"fs/read_text_file","params":{}}"#);
    assert_eq!(mux.one("A", "fs/read_text_file")["id"], "t");
    assert_eq!(mux.one("B", "fs/read_text_file")["id"], "t");
    assert!(mux.to_agent.is_empty());
}

#[test]
fn initialize_strips_blocked_client_tool_capabilities_by_default() {
    let mut mux = Mux::start(&options(), mock(), "A");
    mux.send(
        "A",
        r#"{"jsonrpc":"2.0","id":1,"method":"initialize","params":{"protocolVersion":1,"clientCapabilities":{"fs":{"readTextFile":true,"writeTextFile":true},"terminal":true,"session":{"load":{}},"customTool":{"enabled":true}}}}"#,
    );
    assert_eq!(
        mux.to_agent[0]["params"]["clientCapabilities"],
        value(r#"{"session":{"load":{}},"customTool":{"enabled":true}}"#)
    );
    assert_eq!(mux.to_agent[0]["params"]["protocolVersion"], 1);
}

#[test]
fn agent_request_first_reply_wins() {
    let mut mux = Mux::busy(MockOptions {
        emit_permission: true,
        echo_responses: true,
        ..mock()
    });
    mux.send("A", &prompt(7, "hi"));
    let line = mux.stdout.remove(0);
    mux.step(SessionMsg::AgentStdoutLine(line));
    let before = mux.to_agent.len();
    mux.send(
        "B",
        r#"{"jsonrpc":"2.0","id":10001,"result":{"outcome":{"outcome":"selected","optionId":"deny"}}}"#,
    );
    mux.send(
        "A",
        r#"{"jsonrpc":"2.0","id":10001,"result":{"outcome":{"outcome":"selected","optionId":"allow_once"}}}"#,
    );
    assert_eq!(mux.to_agent.len(), before + 1);
    mux.release();
    for id in ["A", "B"] {
        let resolved = mux.one(id, "amux/agent_request_resolved");
        assert_eq!(resolved["params"]["resolvedBy"], "B");
        assert_eq!(resolved["params"]["result"]["outcome"]["optionId"], "deny");
        assert_eq!(mux.one(id, "mock/response_echo")["params"]["id"], 10001);
        let update = mux.update(id, "permission_resolved");
        assert_eq!(update["params"]["update"]["requestId"], 10001);
        assert_eq!(update["params"]["update"]["chosenOptionId"], "deny");
        assert_eq!(update["params"]["update"]["resolvedBy"]["clientId"], "B");
        assert_eq!(
            update["params"]["update"]["resolvedBy"]["name"],
            "name of B"
        );
    }
}

#[test]
fn agent_request_resolved_on_turn_end_when_no_reply() {
    let mut mux = Mux::ready(MockOptions {
        emit_permission: true,
        ..mock()
    });
    mux.send("A", &prompt(7, "hi"));
    let methods = mux.methods("A");
    let at = |wanted: &str| methods.iter().position(|method| method == wanted).unwrap();
    assert!(at("amux/agent_request_opened") < at("session/request_permission"));
    assert!(at("session/request_permission") < at("amux/agent_request_resolved"));
    assert!(at("amux/agent_request_resolved") < at("amux/turn_complete"));
    let resolved = mux.one("A", "amux/agent_request_resolved");
    assert_eq!(resolved["params"]["resolvedBy"], "mux:turn-ended");
    assert!(resolved["params"].get("result").is_none());
    assert!(resolved["params"].get("error").is_none());
    assert!(mux.actor.inner.pending_permission_frames.is_empty());
}

#[test]
fn agent_request_opened_replayed_to_late_joiner_without_actionable_request() {
    let mut mux = Mux::ready(MockOptions {
        emit_permission: true,
        ..mock()
    });
    mux.send("A", &prompt(7, "hi"));
    mux.drain();
    mux.attach("B").unwrap();
    assert_eq!(
        mux.one("B", "amux/agent_request_opened")["params"]["requestParams"]["toolCall"]
            ["toolCallId"],
        "mock-tool-10001"
    );
    mux.one("B", "amux/agent_request_resolved");
    assert!(mux.all("B", "session/request_permission").is_empty());
}

#[test]
fn attach_pending_only_reissues_permission() {
    let mut mux = Mux::busy(MockOptions {
        emit_permission: true,
        ..mock()
    });
    mux.send("A", &prompt(7, "needs approval"));
    let line = mux.stdout.remove(0);
    mux.step(SessionMsg::AgentStdoutLine(line));
    mux.drain();
    mux.send(
        "B",
        r#"{"jsonrpc":"2.0","id":11,"method":"session/attach","params":{"sessionId":"sess-mock","historyPolicy":"pending_only"}}"#,
    );
    let attached = mux.answer("B", "11");
    assert_eq!(attached["result"]["historyPolicy"], "pending_only");
    let history = attached["result"]["history"].as_array().unwrap();
    assert_eq!(history.len(), 1);
    assert_eq!(history[0]["method"], "session/request_permission");
    assert_eq!(history[0]["params"]["toolCall"]["status"], "pending");
    assert_eq!(mux.one("B", "session/request_permission")["id"], 10001);
    assert!(mux.frames("A").is_empty());
    assert!(mux.to_agent.is_empty());
}

#[test]
fn attach_returns_roster_and_history_policy() {
    let mut mux = Mux::ready(mock());
    mux.send("A", &prompt(3, "seed"));
    mux.drain();
    mux.send(
        "A",
        r#"{"jsonrpc":"2.0","id":4,"method":"session/attach","params":{"sessionId":"sess-mock","historyPolicy":"none","clientId":"client-A","clientInfo":{"name":"dash","version":"1.0"}}}"#,
    );
    let none = mux.answer("A", "4");
    assert_eq!(none["result"]["sessionId"], "sess-mock");
    assert_eq!(none["result"]["clientId"], "client-A");
    assert_eq!(none["result"]["historyPolicy"], "none");
    assert!(none["result"].get("history").is_none());
    assert_eq!(
        none["result"]["connectedClients"],
        value(r#"[{"clientId":"A","name":"name of A"}]"#)
    );
    mux.send(
        "A",
        r#"{"jsonrpc":"2.0","id":5,"method":"session/attach","params":{"sessionId":"sess-mock","historyPolicy":"after_message","afterMessageId":"m"}}"#,
    );
    let after = mux.answer("A", "5");
    assert_eq!(after["result"]["historyPolicy"], "full");
    assert!(after["result"]["history"]
        .as_array()
        .unwrap()
        .iter()
        .any(|entry| entry["method"] == "session/update"));
    mux.send(
        "A",
        r#"{"jsonrpc":"2.0","id":6,"method":"session/attach","params":{"sessionId":"another"}}"#,
    );
    assert_eq!(
        mux.answer("A", "6")["error"]["message"],
        "session not found"
    );
}

#[test]
fn detach_is_answered_and_closes() {
    let mut mux = Mux::ready(mock());
    mux.send(
        "A",
        r#"{"jsonrpc":"2.0","id":12,"method":"session/detach","params":{"sessionId":"sess-mock"}}"#,
    );
    let detached = mux.answer("A", "12");
    assert_eq!(detached["result"]["status"], "detached");
    assert_eq!(detached["result"]["sessionId"], "sess-mock");
    assert!(matches!(
        mux.sent.last(),
        Some((_, OutMsg::Close { code: 1000, .. }))
    ));
}

#[test]
fn subscriber_cancels_own_prompt_translated_to_agent() {
    let mut mux = Mux::busy(MockOptions {
        echo_cancels: true,
        ..mock()
    });
    mux.send("A", &prompt(42, "hi"));
    mux.drain();
    let cancel = r#"{"jsonrpc":"2.0","method":"$/cancel_request","params":{"requestId":42}}"#;
    mux.send("B", cancel);
    assert!(mux.to_agent.is_empty());
    mux.send(
        "A",
        r#"{"jsonrpc":"2.0","method":"$/cancel_request","params":{"requestId":9999}}"#,
    );
    assert!(mux.to_agent.is_empty());
    mux.send("A", cancel);
    assert_eq!(mux.to_agent[0]["method"], "$/cancel_request");
    assert_eq!(mux.to_agent[0]["params"]["requestId"], 3);
    mux.release();
    assert_eq!(mux.one("A", "mock/cancel_echo")["params"]["requestId"], 3);
    assert_eq!(mux.answer("A", "42")["result"]["stopReason"], "end_turn");
}

#[test]
fn agent_cancels_permission_request_fans_out() {
    let mut mux = Mux::busy(MockOptions {
        emit_permission: true,
        cancel_permission: true,
        ..mock()
    });
    mux.send("A", &prompt(7, "hi"));
    mux.release();
    for id in ["A", "B"] {
        assert_eq!(
            mux.one(id, "$/cancel_request")["params"]["requestId"],
            10001
        );
        assert_eq!(
            mux.one(id, "amux/agent_request_resolved")["params"]["resolvedBy"],
            "agent:cancelled"
        );
    }
    mux.drain();
    mux.send("B", r#"{"jsonrpc":"2.0","id":10001,"result":{}}"#);
    assert!(mux.to_agent.is_empty());
}

#[test]
fn amux_cancel_active_turn_by_non_driver() {
    let mut mux = Mux::busy(mock());
    mux.send("A", &prompt(99, "hi"));
    mux.drain();
    mux.send(
        "B",
        r#"{"jsonrpc":"2.0","method":"amux/cancel_active_turn","params":{"reason":"user clicked stop"}}"#,
    );
    for id in ["A", "B"] {
        let cancelled = mux.one(id, "amux/turn_cancelled");
        assert_eq!(cancelled["params"]["cancelledBy"], "B");
        assert_eq!(cancelled["params"]["originalDriver"], "A");
        assert_eq!(cancelled["params"]["reason"], "user clicked stop");
    }
    assert_eq!(
        mux.to_agent,
        vec![value(
            r#"{"jsonrpc":"2.0","method":"session/cancel","params":{"sessionId":"sess-mock"}}"#
        )]
    );
}

#[test]
fn amux_cancel_active_turn_with_no_active_turn_dropped() {
    let mut mux = Mux::ready(mock());
    mux.send("A", r#"{"jsonrpc":"2.0","method":"amux/cancel_active_turn"}"#);
    assert!(mux.sent.is_empty());
    assert!(mux.to_agent.is_empty());
}

#[test]
fn session_list_decorates_live_entry_with_amux_metadata() {
    let mut mux = Mux::ready(MockOptions {
        session_list: true,
        ..mock()
    });
    mux.attach("B").unwrap();
    mux.drain();
    mux.send(
        "A",
        r#"{"jsonrpc":"2.0","id":"list-1","method":"session/list","params":{}}"#,
    );
    let listed = mux.answer("A", "\"list-1\"");
    let sessions = listed["result"]["sessions"].as_array().unwrap();
    assert_eq!(sessions.len(), 3);
    assert_eq!(
        sessions[0]["_meta"]["amux"],
        value(r#"{"proxySessionId":"room","subscriberCount":2,"drivingSubscriber":"A"}"#)
    );
    for archived in &sessions[1..] {
        assert!(archived.get("_meta").is_none());
    }
    mux.held = true;
    mux.send(
        "A",
        r#"{"jsonrpc":"2.0","id":"list-live","method":"session/list","params":{}}"#,
    );
    let id = mux.to_agent.last().unwrap()["id"].clone();
    mux.stdout.clear();
    mux.agent_says(&format!(
        r#"{{"jsonrpc":"2.0","id":{id},"result":{{"sessions":[{{"sessionId":"sess-mock","_meta":{{"agentKey":"preserved","amux":{{"agentAmuxKey":"preserved"}}}}}},{{"sessionId":"sess-archive-001","_meta":{{"agentKey":"preserved"}}}}]}}}}"#
    ));
    let live = mux.answer("A", "\"list-live\"");
    let current = &live["result"]["sessions"][0]["_meta"];
    assert_eq!(current["agentKey"], "preserved");
    assert_eq!(current["amux"]["agentAmuxKey"], "preserved");
    assert_eq!(current["amux"]["proxySessionId"], "room");
    assert_eq!(current["amux"]["subscriberCount"], 2);
    assert_eq!(current["amux"]["drivingSubscriber"], "A");
    let archived = &live["result"]["sessions"][1]["_meta"];
    assert!(archived.get("amux").is_none());
    mux.held = false;
    mux.send(
        "A",
        r#"{"jsonrpc":"2.0","id":"list-2","method":"session/list","params":{"cwd":"/tmp/other"}}"#,
    );
    let filtered = mux.answer("A", "\"list-2\"");
    assert_eq!(
        filtered["result"]["sessions"][0]["sessionId"],
        "sess-archive-002"
    );
    assert_eq!(filtered["result"]["sessions"].as_array().unwrap().len(), 1);
}

#[test]
fn meta_propagation_adds_the_trace() {
    let request = r#"{"jsonrpc":"2.0","id":77,"method":"session/list","params":{"cwd":"/tmp","_meta":{"traceparent":"00-abc","client.example/debug":true,"amux":{"clientTrace":"keep"}}}}"#;
    let mut plain = Mux::start(&options(), mock(), "A");
    plain.send("A", request);
    assert_eq!(
        plain.to_agent[0]["params"],
        value(request)["params"],
        "nothing is added by default"
    );
    assert_eq!(plain.to_agent[0]["id"], 1);

    let mut traced = Mux::start(
        &SessionOptions {
            meta_propagate: true,
            ..options()
        },
        mock(),
        "A",
    );
    traced.send("A", request);
    let meta = &traced.to_agent[0]["params"]["_meta"];
    assert_eq!(meta["traceparent"], "00-abc");
    assert_eq!(meta["client.example/debug"], true);
    assert_eq!(
        meta["amux"],
        value(r#"{"clientTrace":"keep","peerId":"A","peerName":"name of A","muxId":1}"#)
    );
    traced.send("A", &prompt(42, "hi"));
    let meta = &traced.to_agent[1]["params"]["_meta"];
    assert_eq!(meta["amux"]["muxId"], 2);
    assert_eq!(meta["amux"]["amuxTurnId"], "at-1");
}

fn load(id: u64, session: &str) -> String {
    format!(
        r#"{{"jsonrpc":"2.0","id":{id},"method":"session/load","params":{{"sessionId":"{session}","cwd":"/tmp"}}}}"#
    )
}

#[test]
fn session_load_rebinds_canonical_session_for_late_joiners() {
    let mut mux = Mux::ready(mock());
    mux.send("A", &prompt(7, "old"));
    mux.held = true;
    mux.send("A", &load(8, "sess-loaded-xyz"));
    mux.agent_says(
        r#"{"jsonrpc":"2.0","method":"session/update","params":{"sessionId":"sess-loaded-xyz","update":{}}}"#,
    );
    let asked = mux.to_agent.last().unwrap();
    assert_eq!(asked["method"], "session/load");
    let id = asked["id"].clone();
    mux.stdout.clear();
    mux.agent_says(&format!(
        r#"{{"jsonrpc":"2.0","id":{id},"result":{{"sessionId":"sess-loaded-xyz","_loaded":true}}}}"#
    ));
    assert_eq!(
        mux.answer("A", "8")["result"]["sessionId"],
        "sess-loaded-xyz"
    );
    mux.drain();
    mux.held = false;
    mux.attach("B").unwrap();
    let sessions: Vec<Value> = mux
        .all("B", "session/update")
        .iter()
        .map(|frame| frame["params"]["sessionId"].clone())
        .collect();
    assert_eq!(sessions, vec![value("\"sess-loaded-xyz\"")]);
    assert_eq!(mux.one("B", "amux/peer_joined")["params"]["peerId"], "A");
    mux.send("B", NEW);
    let answer = mux.answer("B", "2");
    assert_eq!(answer["result"]["sessionId"], "sess-loaded-xyz");
    assert_eq!(answer["result"]["_invocation"], 1);
    let shown = mux.snapshot();
    assert_eq!(shown["cachedSessionId"], "sess-loaded-xyz");
    assert_eq!(shown["replayGeneration"], 1);
    assert_eq!(
        shown["lastReplayReset"]["loadedSessionId"],
        "sess-loaded-xyz"
    );
    assert_eq!(shown["lastReplayReset"]["retainedFrameCount"], 2);
    assert!(shown["lastReplayReset"]["droppedFrameCount"].as_u64().unwrap() > 0);
    assert_eq!(
        shown["replayLogUpdateFramesByAcpSessionId"],
        value(r#"{"sess-loaded-xyz":1}"#)
    );
}

#[test]
fn session_load_without_prior_new_populates_cache() {
    let mut mux = Mux::start(&options(), mock(), "A");
    mux.send("A", &load(2, "sess-from-load"));
    mux.attach("B").unwrap();
    mux.drain();
    mux.send("B", NEW);
    assert_eq!(
        mux.answer("B", "2")["result"],
        value(r#"{"sessionId":"sess-from-load"}"#)
    );
    assert!(mux.to_agent.is_empty());
}

#[test]
fn failed_session_load_leaves_cache_untouched() {
    let mut mux = Mux::busy(mock());
    mux.send("A", &load(3, "nope"));
    mux.agent_says(r#"{"jsonrpc":"2.0","id":3,"error":{"code":-32000,"message":"no"}}"#);
    assert_eq!(mux.answer("A", "3")["error"]["message"], "no");
    mux.send("B", NEW);
    assert_eq!(mux.answer("B", "2")["result"]["sessionId"], "sess-mock");
    assert_eq!(mux.snapshot()["replayGeneration"], 0);
}

#[test]
fn what_is_no_envelope_passes_through_from_the_agent_only() {
    let mut mux = Mux::busy(mock());
    mux.send("A", "plain text");
    assert!(mux.to_agent.is_empty());
    assert!(mux.sent.is_empty());
    mux.actor.step(SessionMsg::AgentStdoutLine(b"plain text".to_vec()));
    mux.collect();
    assert_eq!(mux.sent.len(), 2);
    assert!(mux
        .sent
        .iter()
        .all(|(_, message)| matches!(message, OutMsg::Frame(bytes) if bytes == b"plain text")));
}

#[test]
fn the_clock_is_read_when_an_event_is_handled() {
    let mut actor = SessionActor::start(
        "room".to_string(),
        &options(),
        SessionListMetadataIndex::new(),
        peer("A"),
    );
    actor.handle(SessionMsg::AgentStdoutLine(
        br#"{"jsonrpc":"2.0","method":"x/note"}"#.to_vec(),
    ));
    let log = actor.inner.replay_log.as_ref().unwrap();
    assert_eq!(log.len(), 2);
    for entry in log {
        assert!(entry.recorded_at.ends_with('Z'));
        assert_eq!(&entry.recorded_at[10..11], "T");
        assert!(entry.recorded_at.as_str() > "2020");
    }
}

fn busy_prompt_is_rejected(request: &str) {
    let mut mux = Mux::busy(mock());
    mux.send("A", &prompt(100, "hi"));
    mux.drain();
    mux.send("B", request);
    assert!(mux.to_agent.is_empty());
    assert_eq!(mux.answer("B", "200")["error"]["code"], -32001);
    let busy = mux.one("B", "amux/session_busy");
    assert_eq!(busy["params"]["busy"], true);
    assert_eq!(busy["params"]["heldBy"], "A");
}

#[test]
fn busy_session_prompt_steer_text_is_rejected() {
    busy_prompt_is_rejected(&prompt(200, "/steer revise the approach"));
}

#[test]
fn busy_session_prompt_queue_text_is_rejected() {
    busy_prompt_is_rejected(&prompt(200, "/queue do this next"));
}

#[test]
fn busy_multimodal_control_prompt_still_rejected() {
    busy_prompt_is_rejected(
        r#"{"jsonrpc":"2.0","id":200,"method":"session/prompt","params":{"sessionId":"sess-mock","prompt":[{"type":"text","text":"/steer look here"},{"type":"image","url":"file:///tmp/nope.png"}]}}"#,
    );
}

#[test]
fn amux_session_busy_on_concurrent_prompt() {
    busy_prompt_is_rejected(
        r#"{"jsonrpc":"2.0","id":200,"method":"session/prompt","params":{"sessionId":"sess-mock"}}"#,
    );
}

#[test]
fn agent_request_falls_through_when_driver_left() {
    let mut mux = Mux::ready(MockOptions {
        emit_permission: true,
        ..mock()
    });
    mux.attach("B").unwrap();
    mux.detach("A");
    mux.drain();
    mux.send(
        "B",
        r#"{"jsonrpc":"2.0","id":7,"method":"session/prompt","params":{"sessionId":"sess-mock"}}"#,
    );
    mux.one("B", "session/request_permission");
    assert_eq!(mux.answer("B", "7")["result"]["stopReason"], "end_turn");
}

#[test]
fn rfd533_prompt_turn_and_disconnect_session_updates() {
    let mut mux = Mux::ready(mock());
    mux.attach("B").unwrap();
    mux.drain();
    mux.send("A", &prompt(3, "hello from A"));
    let received = mux.update("B", "prompt_received");
    assert_eq!(received["params"]["sessionId"], "sess-mock");
    assert_eq!(received["params"]["update"]["sentBy"]["clientId"], "A");
    assert_eq!(
        received["params"]["update"]["prompt"][0]["text"],
        "hello from A"
    );
    let complete = mux.update("B", "turn_complete");
    assert_eq!(complete["params"]["update"]["stopReason"], "end_turn");
    mux.send(
        "B",
        r#"{"jsonrpc":"2.0","id":12,"method":"session/detach","params":{"sessionId":"sess-mock"}}"#,
    );
    let detached = mux.answer("B", "12");
    assert_eq!(detached["result"]["status"], "detached");
    assert_eq!(detached["result"]["sessionId"], "sess-mock");
    mux.detach("B");
    let gone = mux.update("A", "client_disconnected");
    assert_eq!(gone["params"]["update"]["client"]["clientId"], "B");
    assert_eq!(gone["params"]["update"]["client"]["name"], "name of B");
}

#[test]
fn session_list_capability_propagates_from_agent() {
    let mut mux = Mux::start(
        &options(),
        MockOptions {
            session_list: true,
            ..mock()
        },
        "A",
    );
    mux.send("A", INITIALIZE);
    assert_eq!(
        mux.answer("A", "1")["result"]["agentCapabilities"]["sessionCapabilities"]["list"],
        value("{}")
    );
}

#[test]
fn session_list_capability_absent_when_agent_doesnt_advertise() {
    let mut mux = Mux::start(&options(), mock(), "A");
    mux.send("A", INITIALIZE);
    let answer = mux.answer("A", "1");
    assert!(answer["result"]["agentCapabilities"]["sessionCapabilities"]
        .get("list")
        .is_none());
}

/// A session with two peers whose channels have both closed.
fn deserted() -> Mux {
    let mut mux = Mux::busy(mock());
    mux.actor.inner.outbound_closed("A");
    mux.actor.inner.outbound_closed("B");
    mux
}

#[test]
fn any_line_that_loses_the_last_peer_ends_the_session() {
    let request =
        r#"{"jsonrpc":"2.0","id":9,"method":"session/request_permission","params":{}}"#;
    let step = deserted().agent_says(request);
    assert_eq!(step.exit, Some(ExitReason::LastSubscriberLeft));
    let step = Mux::busy(mock()).agent_says(request);
    assert_eq!(step.exit, None);

    let mut mux = Mux::busy(mock());
    mux.send("A", &prompt(5, "hi"));
    mux.actor.inner.outbound_closed("A");
    mux.actor.inner.outbound_closed("B");
    let id = mux.to_agent.last().unwrap()["id"].clone();
    let step = mux.agent_says(&format!(
        r#"{{"jsonrpc":"2.0","id":{id},"result":{{"stopReason":"end_turn"}}}}"#
    ));
    assert_eq!(step.exit, Some(ExitReason::LastSubscriberLeft));
    assert!(mux.actor.inner.subscribers.is_empty());
    let step = mux.agent_says(r#"{"jsonrpc":"2.0","id":77,"result":{}}"#);
    assert_eq!(step.exit, None);

    let step = deserted().agent_says(r#"{"jsonrpc":"2.0","id":77,"result":{}}"#);
    assert_eq!(step.exit, None, "an answer to nothing is told to nobody");
    let step = deserted().agent_says(r#"{"jsonrpc":"2.0","method":"session/update"}"#);
    assert_eq!(step.exit, Some(ExitReason::LastSubscriberLeft));
}

/// A run with one peer, A.
fn run() -> SessionRun {
    let actor = SessionActor::start(
        "room".to_string(),
        &options(),
        SessionListMetadataIndex::new(),
        peer("A"),
    );
    SessionRun::begin(actor, Duration::from_secs(7))
}

#[test]
fn a_run_waits_for_its_time_to_live_and_shuts_the_agent_down() {
    let mut run = run();
    let left = run.advance(SessionMsg::Detach {
        peer_id: "A".to_string(),
    });
    assert_eq!(left.step.timer, TtlTimer::Start);
    assert_eq!(left.wait, Some(Duration::from_secs(7)));
    assert_eq!(left.shutdown, None);

    let seen = run.advance(SessionMsg::Snapshot);
    assert!(seen.step.snapshot.is_some());
    assert_eq!(seen.wait, None);

    let over = run.advance(SessionMsg::TtlElapsed);
    assert_eq!(over.step.exit, Some(ExitReason::TtlExpired));
    assert_eq!(over.shutdown, Some(AgentShutdown { timeout_ms: 2000 }));
    assert_eq!(run.exit, Some(ExitReason::TtlExpired));

    let late = run.advance(SessionMsg::AgentDied);
    assert_eq!(late.step.exit, None);
    assert_eq!(late.shutdown, None);
    assert!(run.advance(SessionMsg::Snapshot).step.snapshot.is_none());
    assert_eq!(run.exit, Some(ExitReason::TtlExpired));
}

#[test]
fn who_attaches_in_time_stops_the_timer() {
    let mut run = run();
    run.advance(SessionMsg::Detach {
        peer_id: "A".to_string(),
    });
    let back = run.advance(SessionMsg::Attach {
        subscriber: peer("A"),
    });
    assert_eq!(back.step.attached, Some(Ok(())));
    assert_eq!(back.step.timer, TtlTimer::Stop);
    assert!(run.advance(SessionMsg::TtlElapsed).shutdown.is_none());
    assert_eq!(run.exit, None);
}

#[test]
fn a_run_ends_with_its_agent_or_its_channel() {
    let mut dead = run();
    dead.actor.inner.take_outbox();
    let over = dead.advance(SessionMsg::AgentDied);
    assert_eq!(over.shutdown, Some(AgentShutdown { timeout_ms: 2000 }));
    let told = dead.actor.inner.take_outbox();
    assert_eq!(told.len(), 1);
    assert_eq!(told[0].peer_id, "A");
    assert!(matches!(
        &told[0].message,
        OutMsg::Close { code: 1011, reason } if reason == "agent subprocess exited"
    ));

    let mut closed = run();
    closed.actor.inner.take_outbox();
    let over = closed.advance(SessionMsg::ChannelClosed);
    assert_eq!(over.shutdown, Some(AgentShutdown { timeout_ms: 2000 }));
    assert!(closed.actor.inner.take_outbox().is_empty());
    assert!(closed.actor.inner.subscribers.is_empty());
}

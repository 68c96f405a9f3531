use amux::cli::{ClientToolPolicy, ReplayTurns};
use amux::json::Json;
use amux::multiplex::subscriber::{OutMsg, Subscriber};
use amux::protocol::amux::{AmuxTurnId, EndReason, HermesProvenance, SegmentId};
use amux::protocol::attach::{HistoryEntry, HistoryPolicy, ReplayOrder, SegmentSummary};
use amux::protocol::jsonrpc::{Id, Incoming, IncomingRequest};
use amux::room::state::{RoomEntry, RoomInner};
use amux::room::turns::{newest_turn_first_history, streaming_replay_segments};
use amux::session::metadata::SessionListMetadataIndex;
use amux::session::state::{
    PendingRequest, PermissionFrame, QueuedPrompt, QueuedPromptKind, ReplayEntry, SessionInner,
};
use serde_json::Value;

fn frame(method: &str, n: u64) -> Vec<u8> {
    format!(r#"{{"jsonrpc":"2.0","method":"{method}","params":{{"n":{n}}}}}"#).into_bytes()
}

fn entry(seq: u64, segment: u64, method: &str) -> RoomEntry {
    RoomEntry {
        entry: ReplayEntry::new(seq, frame(method, seq), "now".to_string()),
        segment_id: SegmentId(segment),
    }
}

/// A room with peer A, whose log holds two turns of the active segment, one
/// frame from before any segment, and one from a segment that has ended.
fn room() -> RoomInner {
    let mut session = SessionInner::new(
        "work".to_string(),
        "/tmp".to_string(),
        ReplayTurns::Unbounded,
        false,
        ClientToolPolicy::default(),
        SessionListMetadataIndex::new(),
    );
    session
        .attach(Subscriber::new(
            "A".to_string(),
            Some("Alice".to_string()),
            None,
            ReplayOrder::Chronological,
        ))
        .unwrap();
    session.take_outbox();
    let mut room = RoomInner::new(session, true);
    room.active_segment_id = Some(SegmentId(2));
    room.replay_log = Some(vec![
        entry(1, 0, "amux/peer_joined"),
        entry(2, 1, "session/update"),
        entry(3, 2, "amux/turn_started"),
        entry(4, 2, "amux/turn_complete"),
        entry(5, 2, "amux/turn_started"),
        entry(6, 2, "session/update"),
    ]);
    room
}

fn request(params: &str) -> IncomingRequest {
    let text =
        format!(r#"{{"jsonrpc":"2.0","id":1,"method":"session/attach","params":{params}}}"#);
    match Incoming::parse(text.as_bytes()).unwrap() {
        Incoming::Request(request) => request,
        other => panic!("expected a request, got {other:?}"),
    }
}

fn sent(room: &mut RoomInner) -> Vec<Value> {
    room.session
        .take_outbox()
        .into_iter()
        .map(|delivery| match delivery.message {
            OutMsg::Frame(bytes) => serde_json::from_slice(&bytes).unwrap(),
            other => panic!("unexpected: {other:?}"),
        })
        .collect()
}

/// Which recorded frames these are.
fn numbers(frames: &[Value]) -> Vec<u64> {
    frames
        .iter()
        .filter_map(|frame| frame["params"]["n"].as_u64())
        .collect()
}

#[test]
fn full_history_is_of_the_active_segment() {
    let mut room = room();
    room.handle_attach("A", request(r#"{"historyPolicy":"full"}"#));
    let frames = sent(&mut room);
    assert_eq!(frames.len(), 1);
    let result = &frames[0]["result"];
    assert_eq!(result["sessionId"], "work");
    assert_eq!(result["clientId"], "A");
    assert_eq!(result["historyPolicy"], "full");
    assert_eq!(
        numbers(result["history"].as_array().unwrap()),
        vec![1, 3, 4, 5, 6]
    );
    let amux = &result["_meta"]["amux"];
    assert_eq!(amux["connectedClients"][0]["name"], "Alice");
    assert_eq!(amux["appliedReplayOrder"], "chronological");
    assert_eq!(amux["appliedHistoryDelivery"], "response");
    assert!(amux.get("snapshot").is_none());
}

#[test]
fn full_lineage_is_of_all_segments() {
    let mut room = room();
    room.handle_attach("A", request(r#"{"historyPolicy":"full_lineage"}"#));
    let frames = sent(&mut room);
    assert_eq!(
        numbers(frames[0]["result"]["history"].as_array().unwrap()),
        vec![1, 2, 3, 4, 5, 6]
    );
    assert_eq!(room.history_full_lineage().len(), 6);
    assert_eq!(
        room.replay_entries_for_policy(HistoryPolicy::PendingOnly)
            .len(),
        5
    );
}

#[test]
fn newest_turn_comes_first_where_asked() {
    let mut room = room();
    room.handle_attach(
        "A",
        request(
            r#"{"historyPolicy":"full","_meta":{"amux":{"replayOrder":"newest_turn_first"}}}"#,
        ),
    );
    let frames = sent(&mut room);
    assert_eq!(
        numbers(frames[0]["result"]["history"].as_array().unwrap()),
        vec![1, 5, 6, 3, 4]
    );
}

#[test]
fn streamed_history_comes_in_pages() {
    let mut room = room();
    room.handle_attach(
        "A",
        request(
            r#"{"historyPolicy":"full","_meta":{"amux":{"replayOrder":"newest_turn_first","historyDelivery":"stream"}}}"#,
        ),
    );
    let frames = sent(&mut room);
    let amux = &frames[0]["result"]["_meta"]["amux"];
    assert_eq!(amux["appliedHistoryDelivery"], "stream");
    assert!(frames[0]["result"].get("history").is_none());
    let snapshot = &amux["snapshot"];
    assert_eq!(snapshot["selfPeer"]["clientId"], "A");
    assert_eq!(snapshot["replayBoundarySeq"], 6);
    assert_eq!(snapshot["activeSegmentId"], "seg-2");
    assert_eq!(frames[1]["method"], "amux/replay_started");
    assert_eq!(frames[1]["params"]["phase"], "latest_segment");
    assert_eq!(frames[1]["params"]["frameCount"], 2);
    assert_eq!(numbers(&frames[2..4]), vec![5, 6]);
    assert_eq!(frames[4]["method"], "amux/replay_complete");
    assert_eq!(frames.len(), 5);

    assert_eq!(room.scheduled.len(), 1);
    let first = room.scheduled.remove(0);
    assert_eq!(first.delay_ms, 25);
    room.send_attach_backfill_page(first.plan);
    let frames = sent(&mut room);
    assert_eq!(frames[0]["params"]["phase"], "backfill");
    assert_eq!(frames[0]["params"]["frameCount"], 3);
    assert_eq!(numbers(&frames), vec![3, 4]);
    assert_eq!(frames.len(), 3);

    let second = room.scheduled.remove(0);
    assert_eq!(second.delay_ms, 1);
    room.send_attach_backfill_page(second.plan);
    let frames = sent(&mut room);
    assert_eq!(numbers(&frames), vec![1]);
    assert_eq!(frames[1]["method"], "amux/replay_complete");
    assert!(room.scheduled.is_empty());
}

#[test]
fn streaming_to_a_peer_that_left_stops() {
    let mut room = room();
    room.handle_attach(
        "A",
        request(r#"{"historyPolicy":"full","_meta":{"amux":{"historyDelivery":"stream"}}}"#),
    );
    sent(&mut room);
    room.session.detach("A");
    room.session.take_outbox();
    let plan = room.scheduled.remove(0).plan;
    room.send_attach_backfill_page(plan);
    assert!(sent(&mut room).is_empty());
    assert!(room.scheduled.is_empty());
}

#[test]
fn snapshot_shows_what_is_going_on() {
    let mut room = room();
    room.session.active_amux_turn_id = Some(AmuxTurnId(4));
    room.session.active_turn_mux_id = Some(9);
    room.session.pending.push((
        9,
        PendingRequest {
            peer_id: "B".to_string(),
            original_id: Id::Number(1),
            handshake: None,
            decorate_session_list: false,
            deliver_response: true,
            queue_item_id: None,
        },
    ));
    room.session.queued_prompts.push(QueuedPrompt {
        queue_item_id: None,
        peer_id: "A".to_string(),
        session_id: "s".to_string(),
        prompt_text: "x".to_string(),
        kind: QueuedPromptKind::HardSteer {
            supersedes_turn_id: AmuxTurnId(4),
        },
    });
    room.session.pending_permission_frames.push(PermissionFrame {
        id: Id::Number(7),
        frame: br#"{"params":{"toolCall":{"toolName":"run"}}}"#.to_vec(),
    });
    room.segments.push(SegmentSummary {
        id: SegmentId(1),
        acp_session_id: None,
        opened_at: "then".to_string(),
        opened_replay_seq: 2,
        closed_at: Some("now".to_string()),
        closed_replay_seq: Some(2),
        end_reason: Some(EndReason::HermesCompression),
        provenance: HermesProvenance::default(),
    });
    room.handle_attach(
        "A",
        request(r#"{"historyPolicy":"full","_meta":{"amux":{"historyDelivery":"stream"}}}"#),
    );
    let frames = sent(&mut room);
    let snapshot = &frames[0]["result"]["_meta"]["amux"]["snapshot"];
    assert_eq!(snapshot["activeTurn"]["amuxTurnId"], "at-4");
    assert_eq!(snapshot["activeTurn"]["peerId"], "B");
    assert_eq!(snapshot["queue"][0]["kind"], "hard_steer");
    assert_eq!(snapshot["queue"][0]["status"], "queued");
    assert_eq!(snapshot["pendingPermissions"][0]["requestId"], 7);
    assert_eq!(snapshot["pendingPermissions"][0]["toolName"], "run");
    assert!(snapshot["pendingPermissions"][0].get("summary").is_none());
    assert_eq!(snapshot["segments"][0]["endReason"], "hermes_compression");
    let last: &Value = frames.last().unwrap();
    assert_eq!(last["params"]["toolCall"]["toolName"], "run");
}

#[test]
fn another_session_is_not_found() {
    let mut room = room();
    room.handle_attach("A", request(r#"{"sessionId":"elsewhere"}"#));
    let frames = sent(&mut room);
    assert_eq!(frames[0]["error"]["message"], "session not found");
    room.handle_detach("A", request(r#"{"sessionId":"elsewhere"}"#));
    let frames = sent(&mut room);
    assert_eq!(frames[0]["error"]["message"], "session not found");
}

fn entries(methods: &[&str]) -> Vec<HistoryEntry> {
    methods
        .iter()
        .enumerate()
        .map(|(n, method)| HistoryEntry {
            method: method.to_string(),
            params: Json::Unsigned(n as u64),
        })
        .collect()
}

fn order(entries: &[HistoryEntry]) -> Vec<u64> {
    entries
        .iter()
        .map(|entry| match entry.params {
            Json::Unsigned(n) => n,
            _ => panic!("a number is expected"),
        })
        .collect()
}

#[test]
fn turns_that_do_not_close_are_turns_too() {
    let history = entries(&[
        "amux/turn_complete",
        "amux/turn_started",
        "x",
        "amux/turn_started",
        "amux/turn_complete",
        "y",
    ]);
    assert_eq!(
        order(&newest_turn_first_history(history)),
        vec![0, 5, 3, 4, 1, 2]
    );
}

#[test]
fn chronological_streaming_has_nothing_at_once() {
    let (latest, pages) = streaming_replay_segments(
        entries(&["x", "amux/turn_started", "amux/turn_complete", "y"]),
        ReplayOrder::Chronological,
    );
    assert!(latest.is_empty());
    let pages: Vec<Vec<u64>> = pages.iter().map(|page| order(page)).collect();
    assert_eq!(pages, vec![vec![0, 3], vec![1, 2]]);
    let (latest, pages) =
        streaming_replay_segments(Vec::<HistoryEntry>::new(), ReplayOrder::NewestTurnFirst);
    assert!(latest.is_empty());
    assert!(pages.is_empty());
}

use amux::json::Json;
use amux::protocol::amux::{
    agent_request_opened, agent_request_resolved, context_compaction_done,
    context_compaction_started, control_submitted, peer_joined, peer_left, queue_item_added,
    queue_item_completed, queue_item_orphaned, queue_item_removed, queue_item_submitted,
    replay_complete, replay_started, segment_ended, segment_started, session_busy,
    session_context, turn_cancelled, turn_complete, turn_started, AmuxTurnId,
    ContextCompactionDone, ContextCompactionStarted, ControlSubmitted, EndReason,
    HermesProvenance, SegmentId,
};
use serde_json::Value;

fn parse(bytes: &[u8]) -> Value {
    serde_json::from_slice(bytes).expect("frame is JSON")
}

fn document(text: &str) -> Json {
    Json::parse(text.as_bytes()).expect("document")
}

fn value(text: &str) -> Value {
    serde_json::from_str(text).expect("value")
}

#[test]
fn turn_id_format() {
    assert_eq!(AmuxTurnId(42).formatted(), "at-42");
    assert_eq!(AmuxTurnId(0).formatted(), "at-0");
}

#[test]
fn peer_joined_includes_optional_fields() {
    let bytes = peer_joined("work", "phone-1", Some("phone"), Some("default"));
    let v = parse(&bytes);
    assert_eq!(v["jsonrpc"], "2.0");
    assert_eq!(v["method"], "amux/peer_joined");
    assert_eq!(v["params"]["roomId"], "work");
    assert_eq!(v["params"]["peerId"], "phone-1");
    assert_eq!(v["params"]["peerName"], "phone");
    assert_eq!(v["params"]["role"], "default");
}

#[test]
fn peer_joined_omits_missing_optionals() {
    let bytes = peer_joined("work", "p1", None, None);
    let v = parse(&bytes);
    assert!(v["params"].get("peerName").is_none());
    assert!(v["params"].get("role").is_none());
}

#[test]
fn peer_left_shape() {
    let v = parse(&peer_left("work", "p1"));
    assert_eq!(v["method"], "amux/peer_left");
    assert_eq!(v["params"]["roomId"], "work");
    assert_eq!(v["params"]["peerId"], "p1");
    assert!(v.get("id").is_none());
}

#[test]
fn turn_started_carries_content() {
    let content = r#"[{"type":"text","text":"hi"}]"#;
    let v = parse(&turn_started(
        "work",
        AmuxTurnId(7),
        "phone-1",
        Some("phone"),
        None,
        &document(content),
        None,
    ));
    assert_eq!(v["method"], "amux/turn_started");
    assert_eq!(v["params"]["amuxTurnId"], "at-7");
    assert_eq!(v["params"]["peerId"], "phone-1");
    assert_eq!(v["params"]["peerName"], "phone");
    assert!(v["params"].get("role").is_none());
    assert_eq!(v["params"]["content"], value(content));
}

#[test]
fn turn_complete_shape() {
    let reason = document("\"end_turn\"");
    let v = parse(&turn_complete("work", AmuxTurnId(7), &reason));
    assert_eq!(v["method"], "amux/turn_complete");
    assert_eq!(v["params"]["amuxTurnId"], "at-7");
    assert_eq!(v["params"]["stopReason"], "end_turn");
}

#[test]
fn session_busy_shape() {
    let v = parse(&session_busy("work", true, Some("desktop-1")));
    assert_eq!(v["method"], "amux/session_busy");
    assert_eq!(v["params"]["roomId"], "work");
    assert_eq!(v["params"]["busy"], true);
    assert_eq!(v["params"]["heldBy"], "desktop-1");

    let v = parse(&session_busy("work", false, None));
    assert!(v["params"].get("heldBy").is_none());
}

#[test]
fn agent_request_opened_shape() {
    let params = r#"{"sessionId":"sess-mock","options":[{"optionId":"allow_once"}]}"#;
    let v = parse(&agent_request_opened(
        "work",
        &document("10001"),
        "session/request_permission",
        Some(&document(params)),
        Some(AmuxTurnId(7)),
    ));
    assert_eq!(v["method"], "amux/agent_request_opened");
    assert!(v.get("id").is_none());
    assert_eq!(v["params"]["roomId"], "work");
    assert_eq!(v["params"]["requestId"], 10001);
    assert_eq!(v["params"]["requestMethod"], "session/request_permission");
    assert_eq!(v["params"]["requestParams"], value(params));
    assert_eq!(v["params"]["amuxTurnId"], "at-7");
}

#[test]
fn agent_request_opened_omits_missing_optionals() {
    let v = parse(&agent_request_opened(
        "work",
        &document("\"perm-7\""),
        "session/request_permission",
        None,
        None,
    ));
    assert_eq!(v["params"]["requestId"], "perm-7");
    assert!(v["params"].get("requestParams").is_none());
    assert!(v["params"].get("amuxTurnId").is_none());
}

#[test]
fn agent_request_resolved_with_result() {
    let result = r#"{"outcome":{"outcome":"selected","optionId":"allow_once"}}"#;
    let v = parse(&agent_request_resolved(
        "work",
        &document("10001"),
        "alice",
        Some(&document(result)),
        None,
    ));
    assert_eq!(v["method"], "amux/agent_request_resolved");
    assert_eq!(v["params"]["roomId"], "work");
    assert_eq!(v["params"]["requestId"], 10001);
    assert_eq!(v["params"]["resolvedBy"], "alice");
    assert_eq!(v["params"]["result"], value(result));
    assert!(v["params"].get("error").is_none());
}

#[test]
fn agent_request_resolved_with_error() {
    let err = r#"{"code":-32603,"message":"rejected"}"#;
    let v = parse(&agent_request_resolved(
        "work",
        &document("\"perm-7\""),
        "bob",
        None,
        Some(&document(err)),
    ));
    assert_eq!(v["params"]["requestId"], "perm-7");
    assert_eq!(v["params"]["error"], value(err));
    assert!(v["params"].get("result").is_none());
}

#[test]
fn agent_request_resolved_omits_missing_result_and_error() {
    let v = parse(&agent_request_resolved(
        "work",
        &document("\"stale-perm\""),
        "mux:turn-ended",
        None,
        None,
    ));
    assert_eq!(v["params"]["requestId"], "stale-perm");
    assert_eq!(v["params"]["resolvedBy"], "mux:turn-ended");
    assert!(v["params"].get("result").is_none());
    assert!(v["params"].get("error").is_none());
}

#[test]
fn frames_are_written_in_full() {
    let text = |bytes: Vec<u8>| String::from_utf8(bytes).unwrap();
    assert_eq!(
        text(session_context("r", "/tmp")),
        r#"{"jsonrpc":"2.0","method":"amux/session_context","params":{"roomId":"r","cwd":"/tmp"}}"#
    );
    assert_eq!(
        text(turn_cancelled("r", AmuxTurnId(1), "b", "a", None)),
        r#"{"jsonrpc":"2.0","method":"amux/turn_cancelled","params":{"roomId":"r","amuxTurnId":"at-1","cancelledBy":"b","originalDriver":"a"}}"#
    );
    assert_eq!(
        text(queue_item_added("r", "q-1", "a", None, Some("x"), "hi")),
        r#"{"jsonrpc":"2.0","method":"amux/queue_item_added","params":{"roomId":"r","queueItemId":"q-1","peerId":"a","role":"x","text":"hi","status":"queued"}}"#
    );
    assert_eq!(
        text(queue_item_submitted("r", "q-1", AmuxTurnId(2))),
        r#"{"jsonrpc":"2.0","method":"amux/queue_item_submitted","params":{"roomId":"r","queueItemId":"q-1","amuxTurnId":"at-2"}}"#
    );
    assert_eq!(
        text(queue_item_completed("r", "q-1", AmuxTurnId(2), &Json::Null)),
        r#"{"jsonrpc":"2.0","method":"amux/queue_item_completed","params":{"roomId":"r","queueItemId":"q-1","amuxTurnId":"at-2","stopReason":null}}"#
    );
    assert_eq!(
        text(queue_item_removed("r", "q-1", "b")),
        r#"{"jsonrpc":"2.0","method":"amux/queue_item_removed","params":{"roomId":"r","queueItemId":"q-1","removedBy":"b","reason":"unqueued"}}"#
    );
    assert_eq!(
        text(queue_item_orphaned("r", "q-1", "a")),
        r#"{"jsonrpc":"2.0","method":"amux/queue_item_orphaned","params":{"roomId":"r","queueItemId":"q-1","peerId":"a"}}"#
    );
    assert_eq!(
        text(replay_started("r", "history", "chronological", 2, 9, 3)),
        r#"{"jsonrpc":"2.0","method":"amux/replay_started","params":{"roomId":"r","phase":"history","replayOrder":"chronological","generation":2,"replayBoundarySeq":9,"frameCount":3}}"#
    );
    assert_eq!(
        text(replay_complete("r", "history", "chronological", 2, 9, 3)),
        r#"{"jsonrpc":"2.0","method":"amux/replay_complete","params":{"roomId":"r","phase":"history","replayOrder":"chronological","generation":2,"replayBoundarySeq":9,"frameCount":3}}"#
    );
    assert_eq!(
        text(segment_started(
            "r",
            SegmentId(1),
            Some("s"),
            "now",
            &HermesProvenance::default()
        )),
        r#"{"jsonrpc":"2.0","method":"amux/segment_started","params":{"roomId":"r","segmentId":"seg-1","acpSessionId":"s","openedAt":"now"}}"#
    );
    assert_eq!(
        text(segment_ended(
            "r",
            SegmentId(1),
            "now",
            EndReason::SessionLoad,
            Some(SegmentId(2))
        )),
        r#"{"jsonrpc":"2.0","method":"amux/segment_ended","params":{"roomId":"r","segmentId":"seg-1","closedAt":"now","endReason":"session_load","successorSegmentId":"seg-2"}}"#
    );
    assert_eq!(
        text(control_submitted(ControlSubmitted {
            room_id: "r",
            kind: "steer",
            mode: "hard",
            peer_id: "a",
            peer_name: None,
            role: None,
            amux_turn_id: None,
            text: "t",
        })),
        r#"{"jsonrpc":"2.0","method":"amux/control_submitted","params":{"roomId":"r","kind":"steer","mode":"hard","peerId":"a","text":"t"}}"#
    );
}

#[test]
fn compaction_frames() {
    let v = parse(&context_compaction_started(ContextCompactionStarted {
        room_id: "r",
        source: "hermes_stderr",
        hermes_session_id: Some("h"),
        messages_before: Some(50),
        tokens_approx_before: None,
        model: Some("m"),
        focus: None,
    }));
    assert_eq!(v["method"], "amux/context_compaction_started");
    assert_eq!(v["params"]["messagesBefore"], 50);
    assert!(v["params"].get("focus").is_none());
    let v = parse(&context_compaction_done(ContextCompactionDone {
        room_id: "r",
        source: "hermes_stderr",
        hermes_session_id: None,
        messages_before: Some(50),
        messages_after: Some(9),
        tokens_approx_after: None,
        compression_count: 1,
        previous_segment_id: Some(SegmentId(1)),
        successor_segment_id: None,
    }));
    assert_eq!(v["method"], "amux/context_compaction_done");
    assert_eq!(v["params"]["messagesAfter"], 9);
    assert_eq!(v["params"]["compressionCount"], 1);
    assert_eq!(v["params"]["previousSegmentId"], "seg-1");
}

#[test]
fn frames_hold_no_line_end() {
    for frame in [
        peer_joined("r\n", "A\n", Some("two\nlines"), Some("\r\n")),
        peer_left("r\n", "A\n"),
        queue_item_added("r", "q\n", "A", None, None, "one\ntwo\n"),
    ] {
        assert!(!frame.contains(&b'\n'));
        assert!(parse(&frame)["params"]["roomId"].as_str().unwrap().starts_with('r'));
    }
}

use amux::json::Json;
use amux::protocol::attach::ReplayOrder;
use amux::protocol::jsonrpc::ParseError;
use amux::room::registry::ControlPlaneSessionListError;
use amux::server::{
    control_plane_error_response, debug_sessions, is_valid_session_id, parse_replay_order,
    refusal_close, strip_trailing_newline, validate, AttachQuery, CLOSE_CODE_INTERNAL,
    CLOSE_CODE_PEER_CONFLICT,
};
use amux::session::registry::RegistryError;

#[test]
fn strip_trailing_newline_variants() {
    assert_eq!(strip_trailing_newline(b"{}"), b"{}");
    assert_eq!(strip_trailing_newline(b"{}\n"), b"{}");
    assert_eq!(strip_trailing_newline(b"{}\r\n"), b"{}");
    assert_eq!(strip_trailing_newline(b"{}\n\n"), b"{}\n");
    assert_eq!(strip_trailing_newline(b""), b"");
}

#[test]
fn session_id_regex_accepts_canonical() {
    assert!(is_valid_session_id("abc"));
    assert!(is_valid_session_id("a_b-C-9"));
    assert!(is_valid_session_id(&"a".repeat(128)));
}

#[test]
fn session_id_regex_rejects_edge_cases() {
    assert!(!is_valid_session_id(""));
    assert!(!is_valid_session_id(&"a".repeat(129)));
    assert!(!is_valid_session_id("has space"));
    assert!(!is_valid_session_id("has/slash"));
    assert!(!is_valid_session_id("dotsbad."));
}

#[test]
fn validate_requires_session_and_peer_id() {
    let q = AttachQuery {
        session: None,
        peer_id: Some("p1".into()),
        peer_name: None,
        role: None,
        replay_order: None,
    };
    assert!(validate(&q).is_err());

    let q = AttachQuery {
        session: Some("ok".into()),
        peer_id: Some("p1".into()),
        peer_name: Some("Alice".into()),
        role: Some("driver".into()),
        replay_order: Some("newest_turn_first".into()),
    };
    let v = validate(&q).unwrap();
    assert_eq!(v.session, "ok");
    assert_eq!(v.peer_id, "p1");
    assert_eq!(v.peer_name.as_deref(), Some("Alice"));
    assert_eq!(v.role.as_deref(), Some("driver"));
    assert_eq!(v.replay_order, ReplayOrder::NewestTurnFirst);
}

fn query(session: Option<&str>, peer_id: Option<&str>, replay_order: Option<&str>) -> AttachQuery {
    AttachQuery {
        session: session.map(str::to_string),
        peer_id: peer_id.map(str::to_string),
        peer_name: None,
        role: None,
        replay_order: replay_order.map(str::to_string),
    }
}

#[test]
fn validate_names_the_first_reason() {
    assert_eq!(
        validate(&query(None, None, None)).unwrap_err(),
        "missing ?session"
    );
    assert_eq!(
        validate(&query(Some("a b"), None, None)).unwrap_err(),
        "invalid ?session (expect ^[A-Za-z0-9_-]{1,128}$)"
    );
    assert_eq!(
        validate(&query(Some("s"), None, None)).unwrap_err(),
        "missing ?peer_id"
    );
    assert_eq!(
        validate(&query(Some("s"), Some(""), None)).unwrap_err(),
        "empty ?peer_id"
    );
    assert_eq!(
        validate(&query(Some("s"), Some("p"), Some("backwards"))).unwrap_err(),
        "invalid ?replay_order (expected chronological or newest_turn_first)"
    );
}

#[test]
fn validated_attach_is_the_peer() {
    let subscriber = validate(&query(Some("s"), Some("p"), None))
        .unwrap()
        .subscriber();
    assert_eq!(subscriber.peer_id, "p");
    assert!(subscriber.open);
    assert_eq!(subscriber.replay_order, ReplayOrder::Chronological);
}

#[test]
fn replay_order_names() {
    assert_eq!(parse_replay_order(None), Ok(ReplayOrder::Chronological));
    assert_eq!(parse_replay_order(Some("")), Ok(ReplayOrder::Chronological));
    assert_eq!(
        parse_replay_order(Some("chronological")),
        Ok(ReplayOrder::Chronological)
    );
    assert_eq!(
        parse_replay_order(Some("newest_turn_first")),
        Ok(ReplayOrder::NewestTurnFirst)
    );
}

#[test]
fn session_id_rejects_other_letters() {
    assert!(!is_valid_session_id("caf\u{e9}"));
    assert!(!is_valid_session_id("a\n"));
}

#[test]
fn refusals_close_with_a_reason() {
    assert_eq!(
        refusal_close(&RegistryError::PeerIdInUse),
        (
            CLOSE_CODE_PEER_CONFLICT,
            "peer_id already attached to this session"
        )
    );
    assert_eq!(
        refusal_close(&RegistryError::AgentCmdMissing),
        (CLOSE_CODE_INTERNAL, "server has no --agent-cmd configured")
    );
    assert_eq!(
        refusal_close(&RegistryError::AgentSpawn("no such file".to_string())),
        (CLOSE_CODE_INTERNAL, "agent spawn failed")
    );
    assert_eq!(
        refusal_close(&RegistryError::ActorUnreachable),
        (CLOSE_CODE_INTERNAL, "session unreachable")
    );
}

fn shown(document: &Json) -> serde_json::Value {
    serde_json::from_slice(&document.to_vec()).unwrap()
}

#[test]
fn control_plane_errors_as_replies() {
    let (status, body) =
        control_plane_error_response(&ControlPlaneSessionListError::AgentCmdMissing);
    assert_eq!(status, 503);
    assert_eq!(shown(&body)["error"], "agent command not configured");
    assert!(shown(&body).get("details").is_none());

    let details = |error: ControlPlaneSessionListError| {
        let (status, body) = control_plane_error_response(&error);
        assert_eq!(status, 502);
        assert_eq!(shown(&body)["error"], "agent session/list failed");
        shown(&body)["details"].as_str().unwrap().to_string()
    };
    assert_eq!(
        details(ControlPlaneSessionListError::AgentProcess("gone".to_string())),
        "agent process failed: gone"
    );
    assert_eq!(
        details(ControlPlaneSessionListError::Protocol(
            ParseError::NotAnObject
        )),
        "agent protocol parse failed: frame is not a JSON object"
    );
    assert_eq!(
        details(ControlPlaneSessionListError::AgentJsonRpc {
            code: -32601,
            message: "no".to_string(),
            data: None,
        }),
        "agent returned JSON-RPC error -32601: no"
    );
    assert_eq!(
        details(ControlPlaneSessionListError::AgentTimeout {
            method: "initialize"
        }),
        "agent did not respond to initialize before timeout"
    );
    assert_eq!(
        details(ControlPlaneSessionListError::AgentEof {
            method: "session/list"
        }),
        "agent exited before responding to session/list"
    );
}

#[test]
fn no_sessions_to_show() {
    let reply = shown(&debug_sessions(&vec![]));
    assert_eq!(reply["sessionCount"], 0);
    assert_eq!(reply["sessions"].as_array().unwrap().len(), 0);
}

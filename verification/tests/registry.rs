use std::time::Duration;

use amux::cli::{ClientToolMode, ReplayTurns};
use amux::room::registry::{
    ControlPlaneSessionListError, QueryEvent, QueryStep, RoomRegistry,
    CONTROL_PLANE_AGENT_TIMEOUT_SECONDS,
};
use amux::session::registry::{
    joined, AgentCmd, AttachPlan, JoinOutcome, RegistryError, SessionRegistry,
};
use amux::session::state::AttachError;
use serde_json::Value;

#[test]
fn control_plane_agent_timeout_allows_slow_hermes_mcp_startup() {
    assert!(Duration::from_secs(CONTROL_PLANE_AGENT_TIMEOUT_SECONDS) >= Duration::from_secs(8));
}

fn command() -> AgentCmd {
    AgentCmd {
        program: "cat".to_string(),
        args: vec![],
    }
}

#[test]
fn attach_joins_what_runs_and_replaces_what_does_not() {
    let mut registry =
        SessionRegistry::new(Some(command()), ReplayTurns::Unbounded, Duration::from_secs(60));
    assert!(!registry.meta_propagate);
    assert_eq!(registry.command().unwrap().program, "cat");
    assert_eq!(registry.attach("a", &vec![]), AttachPlan::Spawn);
    let a = registry.spawned("a");
    let b = registry.spawned("b");
    assert_ne!(a, b);
    assert_eq!(registry.attach("a", &vec![a, b]), AttachPlan::Join(a));
    assert_eq!(registry.live_session_count(&vec![a, b]), 2);
    assert_eq!(registry.live_session_count(&vec![b]), 1);
    assert_eq!(registry.attach("a", &vec![b]), AttachPlan::Spawn);
    let again = registry.spawned("a");
    assert_eq!(registry.attach("a", &vec![again, b]), AttachPlan::Join(again));
    let listed: Vec<String> = registry
        .snapshot(&vec![b])
        .into_iter()
        .map(|(id, _)| id)
        .collect();
    assert_eq!(listed, vec!["b".to_string()]);
    assert_eq!(registry.shutdown(), 2);
    assert_eq!(registry.attach("b", &vec![b]), AttachPlan::Spawn);
}

#[test]
fn joins_and_their_errors() {
    assert!(joined(JoinOutcome::Answered(Ok(()))).is_ok());
    assert!(matches!(
        joined(JoinOutcome::Answered(Err(AttachError::PeerIdInUse))),
        Err(RegistryError::PeerIdInUse)
    ));
    assert!(matches!(
        joined(JoinOutcome::Gone),
        Err(RegistryError::ActorUnreachable)
    ));
    let none = SessionRegistry::new(None, ReplayTurns::Disabled, Duration::ZERO);
    assert!(matches!(
        none.command(),
        Err(RegistryError::AgentCmdMissing)
    ));
    assert_eq!(
        RegistryError::AgentSpawn("no such file".to_string()).to_text(),
        "agent spawn failed: no such file"
    );
    assert_eq!(
        RegistryError::ActorUnreachable.to_text(),
        "session actor not reachable"
    );
}

fn sent(step: &QueryStep) -> Value {
    match step {
        QueryStep::Send(frame) => serde_json::from_slice(frame).unwrap(),
        other => panic!("expected a frame, got {other:?}"),
    }
}

fn line(text: &str) -> QueryEvent {
    QueryEvent::Line(text.as_bytes().to_vec())
}

#[test]
fn sessions_are_asked_for_in_two_requests() {
    let registry = RoomRegistry::new(Some(command()), ReplayTurns::Unbounded, Duration::ZERO);
    assert_eq!(registry.client_tool_policy.fs, ClientToolMode::Block);
    assert!(registry.emit_segment_frames);
    let (cmd, mut query, first) = registry
        .list_sessions_control_plane(Some("/tmp/mock".to_string()))
        .unwrap();
    assert_eq!(cmd.program, "cat");
    let first: Value = serde_json::from_slice(&first).unwrap();
    assert_eq!(first["id"], 1);
    assert_eq!(first["method"], "initialize");
    assert_eq!(first["params"]["protocolVersion"], 1);
    assert!(matches!(
        query.step(line(r#"{"jsonrpc":"2.0","method":"noise"}"#)),
        QueryStep::Wait
    ));
    assert!(matches!(
        query.step(line(r#"{"jsonrpc":"2.0","id":9,"result":{}}"#)),
        QueryStep::Wait
    ));
    let second = sent(&query.step(line(r#"{"jsonrpc":"2.0","id":1,"result":{}}"#)));
    assert_eq!(second["id"], 2);
    assert_eq!(second["method"], "session/list");
    assert_eq!(second["params"]["cwd"], "/tmp/mock");
    match query.step(line(r#"{"jsonrpc":"2.0","id":2,"result":{"sessions":[]}}"#)) {
        QueryStep::Done(result) => {
            assert_eq!(result.to_vec(), br#"{"sessions":[]}"#.to_vec())
        }
        other => panic!("expected the answer, got {other:?}"),
    }
}

#[test]
fn asking_for_sessions_fails_in_each_way() {
    let registry = RoomRegistry::new(None, ReplayTurns::Unbounded, Duration::ZERO);
    assert!(matches!(
        registry.list_sessions_control_plane(None),
        Err(ControlPlaneSessionListError::AgentCmdMissing)
    ));
    let registry = RoomRegistry::new(Some(command()), ReplayTurns::Unbounded, Duration::ZERO);
    let begin = || registry.list_sessions_control_plane(None).unwrap().1;
    assert!(matches!(
        begin().step(QueryEvent::Timeout),
        QueryStep::Failed(ControlPlaneSessionListError::AgentTimeout { method: "initialize" })
    ));
    assert!(matches!(
        begin().step(QueryEvent::Eof),
        QueryStep::Failed(ControlPlaneSessionListError::AgentEof { method: "initialize" })
    ));
    assert!(matches!(
        begin().step(line("no json")),
        QueryStep::Failed(ControlPlaneSessionListError::Protocol(_))
    ));
    assert!(matches!(
        begin().step(line(
            r#"{"jsonrpc":"2.0","id":1,"error":{"code":-32000,"message":"no"}}"#
        )),
        QueryStep::Failed(ControlPlaneSessionListError::AgentJsonRpc { code: -32000, .. })
    ));
    let mut noisy = begin();
    let noise = r#"{"jsonrpc":"2.0","method":"noise"}"#;
    for _ in 0..127 {
        assert!(matches!(noisy.step(line(noise)), QueryStep::Wait));
    }
    assert!(matches!(
        noisy.step(line(noise)),
        QueryStep::Failed(ControlPlaneSessionListError::AgentTimeout { .. })
    ));
}

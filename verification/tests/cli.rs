use std::time::Duration;

use amux::cli::{split_agent_cmd, Cli, ClientToolMode, LogLevel, ReplayTurns};
use amux::multiplex::subscriber::Subscriber;
use amux::protocol::attach::ReplayOrder;
use amux::room::registry::RoomRegistry;
use amux::session::actor::{SessionActor, SessionMsg, SessionOptions};
use amux::session::metadata::SessionListMetadataIndex;

#[test]
fn replay_turns_parses_unbounded() {
    assert_eq!(
        "unbounded".parse::<ReplayTurns>().unwrap(),
        ReplayTurns::Unbounded
    );
    assert_eq!(
        "UNBOUNDED".parse::<ReplayTurns>().unwrap(),
        ReplayTurns::Unbounded
    );
}

#[test]
fn replay_turns_parses_zero_as_disabled() {
    assert_eq!("0".parse::<ReplayTurns>().unwrap(), ReplayTurns::Disabled);
}

#[test]
fn replay_turns_parses_positive() {
    assert_eq!(
        "16".parse::<ReplayTurns>().unwrap(),
        ReplayTurns::Bounded(16)
    );
}

#[test]
fn replay_turns_rejects_garbage() {
    assert!("nope".parse::<ReplayTurns>().is_err());
}

#[test]
fn agent_cmd_split() {
    assert_eq!(
        split_agent_cmd("gemini-acp --port 9090"),
        Some((
            "gemini-acp".into(),
            vec!["--port".into(), "9090".into()]
        ))
    );
    assert_eq!(split_agent_cmd("   "), None);
}

#[test]
fn meta_propagate_defaults_off() {
    let cli = Cli::default();
    assert!(!cli.meta_propagate);
}

#[test]
fn meta_propagate_flag_enables_trace_injection() {
    let cli = Cli {
        meta_propagate: true,
        ..Cli::default()
    };
    assert!(cli.meta_propagate);
    let registry = RoomRegistry::new_with_options(
        None,
        cli.replay_turns,
        Duration::from_secs(cli.session_ttl_seconds),
        cli.meta_propagate,
        cli.client_tool_policy(),
        cli.emit_segment_frames,
    );
    let options = SessionOptions {
        replay_policy: registry.sessions.replay_policy,
        session_ttl: registry.sessions.session_ttl,
        meta_propagate: registry.sessions.meta_propagate,
        client_tool_policy: registry.client_tool_policy,
        agent_cwd: String::new(),
    };
    let peer = Subscriber::new("A".to_string(), None, None, ReplayOrder::Chronological);
    let mut actor = SessionActor::start(
        "room".to_string(),
        &options,
        SessionListMetadataIndex::new(),
        peer,
    );
    let step = actor.step(SessionMsg::InboundFromSubscriber {
        peer_id: "A".to_string(),
        bytes: br#"{"jsonrpc":"2.0","id":7,"method":"session/list"}"#.to_vec(),
    });
    let sent: serde_json::Value = serde_json::from_slice(&step.writes_to_agent[0]).unwrap();
    assert_eq!(sent["params"]["_meta"]["amux"]["peerId"], "A");
    assert_eq!(sent["params"]["_meta"]["amux"]["muxId"], 1);
}

#[test]
fn client_tool_policy_blocks_fs_and_terminal_by_default() {
    let cli = Cli::default();
    let policy = cli.client_tool_policy();
    assert_eq!(
        policy.mode_for_method("fs/read_text_file"),
        Some(ClientToolMode::Block)
    );
    assert_eq!(
        policy.mode_for_method("terminal/create"),
        Some(ClientToolMode::Block)
    );
    assert_eq!(
        policy.mode_for_method("session/request_permission"),
        None,
        "permission prompts stay on the collaborative request path",
    );
    assert_eq!(
        policy.mode_for_method("vendor/unknown"),
        None,
        "v1 only classifies fs/* and terminal/* namespaces",
    );
}

#[test]
fn unsafe_debug_flag_enables_fs_and_terminal_broadcast() {
    let cli = Cli {
        unsafe_debug_client_tool_broadcast: true,
        ..Cli::default()
    };
    let policy = cli.client_tool_policy();
    assert_eq!(
        policy.mode_for_method("fs/write_text_file"),
        Some(ClientToolMode::UnsafeDebug)
    );
    assert_eq!(
        policy.mode_for_method("terminal/create"),
        Some(ClientToolMode::UnsafeDebug)
    );
}

#[test]
fn command_line_defaults() {
    let cli = Cli::default();
    assert_eq!(cli.host, "127.0.0.1");
    assert_eq!(cli.port, 8765);
    assert_eq!(cli.agent_cmd, None);
    assert_eq!(cli.session_ttl_seconds, 60);
    assert_eq!(cli.replay_turns, ReplayTurns::Unbounded);
    assert!(cli.emit_segment_frames);
    assert_eq!(cli.log_level, LogLevel::Info);
}

#[test]
fn log_levels_have_names() {
    assert_eq!(LogLevel::Trace.as_filter(), "trace");
    assert_eq!(LogLevel::Debug.as_filter(), "debug");
    assert_eq!(LogLevel::Info.as_filter(), "info");
    assert_eq!(LogLevel::Warn.as_filter(), "warn");
    assert_eq!(LogLevel::Error.as_filter(), "error");
}

#[test]
fn replay_turns_limits_and_signs() {
    assert_eq!(ReplayTurns::read("+7"), Ok(ReplayTurns::Bounded(7)));
    assert_eq!(ReplayTurns::read("007"), Ok(ReplayTurns::Bounded(7)));
    assert_eq!(
        ReplayTurns::read("4294967295"),
        Ok(ReplayTurns::Bounded(u32::MAX))
    );
    assert!(ReplayTurns::read("4294967296").is_err());
    assert!(ReplayTurns::read("-1").is_err());
    assert!(ReplayTurns::read("+").is_err());
    assert!(ReplayTurns::read("").is_err());
    assert!(ReplayTurns::read(" 7").is_err());
}

#[test]
fn replay_turns_error_shows_what_was_given() {
    assert_eq!(
        ReplayTurns::read("a\"b"),
        Err("expected \"unbounded\" or a non-negative integer, got \"a\\\"b\"".to_string())
    );
}

#[test]
fn agent_cmd_split_takes_any_white_space() {
    assert_eq!(
        split_agent_cmd("\tcat\u{a0}-u \n"),
        Some(("cat".to_string(), vec!["-u".to_string()]))
    );
    assert_eq!(split_agent_cmd(""), None);
}

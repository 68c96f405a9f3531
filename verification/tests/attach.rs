use amux::json::Json;
use amux::protocol::attach::{
    AttachParams, DetachParams, HistoryDelivery, HistoryPolicy, ReplayOrder,
};

fn asked(text: &str) -> AttachParams {
    AttachParams::from_request(&Some(Json::parse(text.as_bytes()).unwrap()))
}

#[test]
fn attach_params_are_read() {
    let params = asked(
        r#"{"sessionId":"s","historyPolicy":"pending_only","clientId":"c","clientInfo":{"name":"n","version":"1"},"_meta":{"amux":{"replayOrder":"newest_turn_first","historyDelivery":"stream"}}}"#,
    );
    assert_eq!(params.session_id.as_deref(), Some("s"));
    assert_eq!(params.client_id.as_deref(), Some("c"));
    assert_eq!(params.policy(), HistoryPolicy::PendingOnly);
    assert_eq!(params.replay_order(), ReplayOrder::NewestTurnFirst);
    assert_eq!(params.history_delivery(), HistoryDelivery::Stream);
}

#[test]
fn attach_params_have_defaults() {
    for params in [
        AttachParams::from_request(&None),
        asked("{}"),
        asked("null"),
        asked(r#"{"historyPolicy":"unheard_of"}"#),
        asked(r#"{"sessionId":7}"#),
    ] {
        assert_eq!(params.session_id, None);
        assert_eq!(params.policy(), HistoryPolicy::Full);
        assert_eq!(params.replay_order(), ReplayOrder::Chronological);
        assert_eq!(params.history_delivery(), HistoryDelivery::Response);
    }
}

#[test]
fn policies_by_name() {
    for (name, policy) in [
        ("full", HistoryPolicy::Full),
        ("full_lineage", HistoryPolicy::FullLineage),
        ("none", HistoryPolicy::NoHistory),
        ("pending_only", HistoryPolicy::PendingOnly),
        ("after_message", HistoryPolicy::Full),
    ] {
        assert_eq!(
            asked(&format!(r#"{{"historyPolicy":"{name}"}}"#)).policy(),
            policy
        );
    }
}

#[test]
fn detach_params_are_read() {
    let read = |text: &str| {
        DetachParams::from_request(&Some(Json::parse(text.as_bytes()).unwrap())).session_id
    };
    assert_eq!(read(r#"{"sessionId":"s"}"#).as_deref(), Some("s"));
    assert_eq!(read(r#"{"sessionId":null}"#), None);
    assert_eq!(read(r#"{"sessionId":1}"#), None);
}

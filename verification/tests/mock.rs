use amux::mock::{MockAgent, MockOptions, MockOutput};
use serde_json::Value;

fn agent(session_list: bool) -> MockAgent {
    MockAgent::new(MockOptions {
        session_id: "sess-mock".to_string(),
        emit_permission: false,
        prompt_delay_ms: 40,
        echo_responses: false,
        echo_cancels: false,
        cancel_permission: false,
        session_list,
    })
}

fn lines(agent: &mut MockAgent, line: &str) -> Vec<Value> {
    agent
        .line(line)
        .into_iter()
        .map(|out| match out {
            MockOutput::Line(line) => serde_json::from_slice(&line).unwrap(),
            MockOutput::Pause(ms) => Value::from(ms),
        })
        .collect()
}

#[test]
fn prompts_stream_pause_and_end() {
    let mut agent = agent(false);
    let outs = lines(
        &mut agent,
        r#"{"jsonrpc":"2.0","id":"p","method":"session/prompt"}"#,
    );
    assert_eq!(outs.len(), 4);
    assert_eq!(outs[0]["params"]["sessionId"], "sess-mock");
    assert_eq!(outs[0]["params"]["update"]["content"]["text"], "hello ");
    assert_eq!(outs[1]["params"]["update"]["content"]["text"], "world");
    assert_eq!(outs[2], 40);
    assert_eq!(outs[3]["id"], "p");
    assert_eq!(outs[3]["result"]["stopReason"], "end_turn");
    assert_eq!(outs[3]["result"]["_invocation"], 1);
}

#[test]
fn sessions_are_offered_only_where_told() {
    let ask = r#"{"jsonrpc":"2.0","id":1,"method":"initialize"}"#;
    let offered = &lines(&mut agent(true), ask)[0];
    assert!(offered["result"]["agentCapabilities"]["sessionCapabilities"]["list"].is_object());
    let plain = &lines(&mut agent(false), ask)[0];
    assert!(plain["result"].get("agentCapabilities").is_none());
    let list = r#"{"jsonrpc":"2.0","id":2,"method":"session/list","params":{"cwd":"/tmp/mock"}}"#;
    let listed = &lines(&mut agent(true), list)[0];
    assert_eq!(listed["result"]["sessions"].as_array().unwrap().len(), 2);
    let none = &lines(&mut agent(false), list)[0];
    assert_eq!(none["result"]["sessions"].as_array().unwrap().len(), 0);
}

#[test]
fn white_space_around_a_line_does_not_count() {
    let mut agent = agent(false);
    let ask = "\u{a0}{\"jsonrpc\":\"2.0\",\"id\":1,\"method\":\"session/new\"}\u{2003}\r";
    assert_eq!(lines(&mut agent, ask)[0]["result"]["sessionId"], "sess-mock");
}

#[test]
fn what_asks_nothing_gets_nothing() {
    let mut agent = agent(false);
    assert!(lines(&mut agent, "no json").is_empty());
    assert!(lines(&mut agent, " \u{a0} ").is_empty());
    assert!(lines(&mut agent, r#"{"jsonrpc":"2.0","method":"x"}"#).is_empty());
    assert!(lines(&mut agent, r#"{"jsonrpc":"2.0","id":1,"result":{}}"#).is_empty());
    assert_eq!(
        lines(&mut agent, r#"{"jsonrpc":"2.0","id":null,"method":"x"}"#)[0]["result"],
        Value::Object(serde_json::Map::new())
    );
}

use amux::json::Json;
use amux::protocol::jsonrpc::{Id, Incoming, JsonFault, JsonRpcError, ParseError};
use serde_json::Value;

fn document(text: &str) -> Json {
    Json::parse(text.as_bytes()).expect("document")
}

fn value(text: &str) -> Value {
    serde_json::from_str(text).expect("value")
}

fn round_trip(text: &str) -> Value {
    let inc = Incoming::from_value(document(text)).expect("parse");
    serde_json::from_slice::<Value>(&inc.to_vec()).expect("re-decode")
}

#[test]
fn request_with_numeric_id() {
    let v = r#"{"jsonrpc":"2.0","id":7,"method":"session/prompt",
        "params":{"prompt":[{"type":"text","text":"hi"}]}}"#;
    let inc = Incoming::from_value(document(v)).unwrap();
    assert!(matches!(inc, Incoming::Request(_)));
    assert_eq!(round_trip(v), value(v));
}

#[test]
fn request_with_string_id() {
    let v = r#"{"jsonrpc":"2.0","id":"req-42","method":"initialize",
        "params":{"protocolVersion":1}}"#;
    let inc = Incoming::from_value(document(v)).unwrap();
    match inc {
        Incoming::Request(r) => assert_eq!(r.id, Id::String("req-42".into())),
        other => panic!("expected request, got {other:?}"),
    }
    assert_eq!(round_trip(v), value(v));
}

#[test]
fn notification_no_id() {
    let v = r#"{"jsonrpc":"2.0","method":"session/update",
        "params":{"sessionId":"s-1","update":{"kind":"agent_message_chunk"}}}"#;
    let inc = Incoming::from_value(document(v)).unwrap();
    assert!(matches!(inc, Incoming::Notification(_)));
    assert_eq!(round_trip(v), value(v));
}

#[test]
fn notification_without_params() {
    let v = r#"{"jsonrpc":"2.0","method":"bridge/peer_left"}"#;
    let inc = Incoming::from_value(document(v)).unwrap();
    assert!(matches!(inc, Incoming::Notification(_)));
    // Params absent stays absent (not written as null).
    assert_eq!(round_trip(v), value(v));
}

#[test]
fn response_with_result() {
    let v = r#"{"jsonrpc":"2.0","id":1,"result":{"sessionId":"s-1"}}"#;
    let inc = Incoming::from_value(document(v)).unwrap();
    assert!(matches!(inc, Incoming::Response(_)));
    assert_eq!(round_trip(v), value(v));
}

#[test]
fn response_with_error() {
    let v = r#"{"jsonrpc":"2.0","id":1,"error":{"code":-32001,"message":"session busy"}}"#;
    let inc = Incoming::from_value(document(v)).unwrap();
    match inc {
        Incoming::Response(r) => {
            let err = r.error.expect("error present");
            assert_eq!(err.code, -32001);
            assert_eq!(err.message, "session busy");
        }
        other => panic!("expected response, got {other:?}"),
    }
    assert_eq!(round_trip(v), value(v));
}

#[test]
fn response_with_error_data() {
    let v = r#"{"jsonrpc":"2.0","id":1,
        "error":{"code":-32001,"message":"busy","data":{"retryAfterMs":500}}}"#;
    assert_eq!(round_trip(v), value(v));
}

#[test]
fn response_with_null_id() {
    // Servers may return id=null when the request id couldn't be parsed.
    let v = r#"{"jsonrpc":"2.0","id":null,"error":{"code":-32700,"message":"Parse error"}}"#;
    let inc = Incoming::from_value(document(v)).unwrap();
    match inc {
        Incoming::Response(r) => assert_eq!(r.id, Id::Null),
        other => panic!("expected response, got {other:?}"),
    }
    assert_eq!(round_trip(v), value(v));
}

#[test]
fn rejects_non_object() {
    assert!(matches!(
        Incoming::from_value(document("[]")),
        Err(ParseError::NotAnObject)
    ));
    assert!(matches!(
        Incoming::from_value(document("\"hi\"")),
        Err(ParseError::NotAnObject)
    ));
}

#[test]
fn rejects_ambiguous_envelope() {
    // No method, no result, no error: not a valid envelope.
    let v = document(r#"{"jsonrpc":"2.0","id":1}"#);
    assert!(matches!(
        Incoming::from_value(v),
        Err(ParseError::Ambiguous(_))
    ));
}

#[test]
fn rejects_wrong_version() {
    let v = document(r#"{"jsonrpc":"1.0","id":1,"method":"foo"}"#);
    let err = Incoming::from_value(v).unwrap_err();
    assert!(matches!(err, ParseError::Json(_)), "got {err:?}");
}

#[test]
fn parse_from_bytes() {
    let bytes = br#"{"jsonrpc":"2.0","id":1,"method":"initialize","params":{}}"#;
    let inc = Incoming::parse(bytes).unwrap();
    assert!(matches!(inc, Incoming::Request(_)));
}

#[test]
fn parse_errors_say_why() {
    let text = Incoming::parse(b"{").unwrap_err();
    assert!(matches!(text, ParseError::Json(JsonFault::Text(_))));
    assert_eq!(
        text.to_text(),
        "json decode: EOF while parsing an object at line 1 column 1"
    );
    let envelope = Incoming::parse(br#"{"jsonrpc":"2.0","id":1.5,"method":"x"}"#).unwrap_err();
    assert!(matches!(envelope, ParseError::Json(JsonFault::Envelope(_))));
    assert_eq!(
        envelope.to_text(),
        "json decode: data did not match any variant of untagged enum Id"
    );
    assert_eq!(
        Incoming::parse(b"[]").unwrap_err().to_text(),
        "frame is not a JSON object"
    );
    assert_eq!(
        Incoming::parse(br#"{"id":1}"#).unwrap_err().to_text(),
        "frame matches no JSON-RPC envelope shape: id=true method=false result_or_error=false"
    );
}

#[test]
fn errors_say_what_they_are() {
    let error = JsonRpcError {
        code: i64::MIN,
        message: "deep".to_string(),
        data: None,
    };
    assert_eq!(
        error.to_text(),
        "jsonrpc error -9223372036854775808: deep"
    );
}

#[test]
fn numbers_and_texts_come_back_as_they_were() {
    let text = r#"{"big":18446744073709551615,"small":-9223372036854775808,"f":1.5,"t":"é\n"}"#;
    let read = document(text);
    assert_eq!(
        serde_json::from_slice::<Value>(&read.to_vec()).unwrap(),
        value(text)
    );
    assert!(Json::parse(&[0xff]).is_err());
}

#[test]
fn members_keep_their_place() {
    let read = document(r#"{"z":1,"a":2,"m":3}"#)
        .field("a", Json::Unsigned(9))
        .without("z")
        .field("n", Json::Null);
    assert_eq!(
        String::from_utf8(read.to_vec()).unwrap(),
        r#"{"a":9,"m":3,"n":null}"#
    );
}

#[test]
fn envelope_faults_are_told() {
    for (frame, fault) in [
        (r#"{"jsonrpc":"1.0","id":1,"method":"x"}"#, r#"unsupported jsonrpc version "1.0", expected "2.0""#),
        (r#"{"jsonrpc":2,"id":1,"method":"x"}"#, "invalid type: integer `2`, expected a string"),
        (r#"{"id":1,"method":"x"}"#, "missing field `jsonrpc`"),
        (r#"{"jsonrpc":"2.0","method":null}"#, "invalid type: null, expected a string"),
        (r#"{"jsonrpc":"2.0","method":-2.5}"#, "invalid type: floating point `-2.5`, expected a string"),
        (r#"{"method":[],"jsonrpc":false}"#, "invalid type: sequence, expected a string"),
        (r#"{"jsonrpc":"2.0","id":1,"error":"no"}"#, "invalid type: string \"no\", expected struct JsonRpcError"),
        (r#"{"jsonrpc":"2.0","id":1,"error":{}}"#, "missing field `code`"),
        (r#"{"jsonrpc":"2.0","id":1,"error":{"code":1}}"#, "missing field `message`"),
        (r#"{"jsonrpc":"2.0","id":1,"error":{"message":{},"code":"a"}}"#, "invalid type: map, expected a string"),
        (r#"{"jsonrpc":"2.0","id":1,"error":{"code":true}}"#, "invalid type: boolean `true`, expected i64"),
        (
            r#"{"jsonrpc":"2.0","id":1,"error":{"code":18446744073709551615}}"#,
            "invalid value: integer `18446744073709551615`, expected i64",
        ),
        (r#"{"jsonrpc":"2.0","id":1,"error":[]}"#, "invalid length 0, expected struct JsonRpcError with 3 elements"),
        (r#"{"jsonrpc":"2.0","id":1,"error":[1]}"#, "invalid length 1, expected struct JsonRpcError with 3 elements"),
        (r#"{"jsonrpc":"2.0","id":1,"error":[1,"m",2,3]}"#, "invalid length 4, expected fewer elements in array"),
    ] {
        let error = Incoming::parse(frame.as_bytes()).unwrap_err();
        assert_eq!(error.to_text(), format!("json decode: {fault}"), "{frame}");
    }
}

#[test]
fn equal_frames_may_list_their_members_in_another_order() {
    let one = Incoming::parse(br#"{"jsonrpc":"2.0","method":"m","params":{"a":1,"b":[-0.0]}}"#);
    let two = Incoming::parse(br#"{"method":"m","params":{"b":[0.0],"a":1},"jsonrpc":"2.0"}"#);
    let three = Incoming::parse(br#"{"method":"m","params":{"b":[0.0],"a":2},"jsonrpc":"2.0"}"#);
    let one = one.unwrap();
    assert_eq!(one, two.unwrap());
    assert_eq!(one, one.clone());
    assert_ne!(one, three.unwrap());
    assert_eq!(Json::Signed(5), Json::Unsigned(5));
    assert_ne!(Json::Signed(-5), Json::Unsigned(5));
    assert_ne!(document("{}"), document(r#"{"a":null}"#));
    assert_ne!(document("[1,2]"), document("[2,1]"));
}

#[test]
fn frames_are_one_line_and_read_back() {
    let frame = Incoming::from_value(document(
        r#"{"jsonrpc":"2.0","id":"a\nb","result":{"text":"one\ntwo\r\n"}}"#,
    ))
    .unwrap();
    let text = frame.to_vec();
    assert!(!text.contains(&b'\n'));
    assert_eq!(Incoming::parse(&text).unwrap(), frame);
}

#[test]
fn the_reserved_key_is_not_read_back() {
    let odd = Json::object().field(
        "$serde_json::private::RawValue",
        Json::String("5".to_string()),
    );
    assert_eq!(Json::parse(&odd.to_vec()).unwrap(), Json::Unsigned(5));
    let plain = Json::object()
        .field("a", Json::Null)
        .field("$serde_json::private::RawValue", Json::Bool(true));
    assert_eq!(Json::parse(&plain.to_vec()).unwrap(), plain);
}

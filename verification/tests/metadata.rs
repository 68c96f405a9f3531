use amux::json::Json;
use amux::session::metadata::{
    inject_replay_metadata, SessionListAmuxMetadata, SessionListMetadataIndex,
};

fn metadata(proxy: &str, driver: Option<&str>) -> SessionListAmuxMetadata {
    SessionListAmuxMetadata {
        proxy_session_id: proxy.to_string(),
        subscriber_count: 1,
        driving_subscriber: driver.map(str::to_string),
    }
}

#[test]
fn the_index_reads_back_what_was_published() {
    let mut index = SessionListMetadataIndex::new();
    assert!(index.get("s").is_none());
    index.upsert("s", metadata("one", None));
    index.upsert("t", metadata("two", Some("A")));
    index.upsert("s", metadata("three", None));
    assert_eq!(index.get("s").unwrap().proxy_session_id, "three");
    index.remove_if_proxy("s", "one");
    assert!(index.get("s").is_some());
    index.remove_if_proxy("s", "three");
    assert!(index.get("s").is_none());
    assert_eq!(
        index.get("t").unwrap().driving_subscriber.as_deref(),
        Some("A")
    );
}

#[test]
fn lists_are_decorated_entry_by_entry() {
    let mut index = SessionListMetadataIndex::new();
    index.upsert("s", metadata("one", None));
    let list = Json::parse(
        br#"{"sessions":[{"sessionId":"s","_meta":{"k":1,"amux":{"own":2,"drivingSubscriber":"old"}}},{"sessionId":"u"},{"sessionId":"s","_meta":[]},7],"next":"x"}"#,
    )
    .unwrap();
    assert_eq!(
        String::from_utf8(index.decorate_list(list).to_vec()).unwrap(),
        r#"{"sessions":[{"sessionId":"s","_meta":{"k":1,"amux":{"own":2,"proxySessionId":"one","subscriberCount":1}}},{"sessionId":"u"},{"sessionId":"s","_meta":[]},7],"next":"x"}"#
    );
}

#[test]
fn replayed_frames_say_when_they_were_recorded() {
    let replayed = |frame: &str| {
        String::from_utf8(inject_replay_metadata(&frame.as_bytes().to_vec(), "now", 7)).unwrap()
    };
    assert_eq!(
        replayed(r#"{"method":"m"}"#),
        r#"{"method":"m","params":{"_meta":{"amux":{"recordedAt":"now","replaySeq":7}}}}"#
    );
    for kept in [
        r#"{"method":"m","params":[1]}"#,
        r#"{"method":"m","params":{"_meta":1}}"#,
        r#"{"method":"m","params":{"_meta":{"amux":1}}}"#,
        "[1]",
        "no json",
    ] {
        assert_eq!(replayed(kept), kept);
    }
}

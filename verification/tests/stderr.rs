use amux::agent::stderr::{parse, HermesStderrSignal};

#[test]
fn parses_started_line() {
    let line = "2026-05-27 21:27:04 [INFO] agent.conversation_compression: context compression started: session=20260527_202251_df54bf messages=50 tokens=~72,908 model=gpt-5.5 focus=None";
    match parse(line).expect("recognized") {
        HermesStderrSignal::CompactionStarted {
            hermes_session_id,
            messages_before,
            tokens_approx_before,
            model,
            focus,
        } => {
            assert_eq!(hermes_session_id.as_deref(), Some("20260527_202251_df54bf"));
            assert_eq!(messages_before, Some(50));
            assert_eq!(tokens_approx_before, Some(72_908));
            assert_eq!(model.as_deref(), Some("gpt-5.5"));
            assert!(focus.is_none(), "focus=None should normalize to None");
        }
        other => panic!("unexpected: {other:?}"),
    }
}

#[test]
fn parses_done_line_ascii_arrow() {
    let line = "2026-05-27 21:27:08 [INFO] agent.conversation_compression: context compression done: session=20260527_202251_df54bf messages=50->9 tokens=~54,700";
    match parse(line).expect("recognized") {
        HermesStderrSignal::CompactionDone {
            hermes_session_id,
            messages_before,
            messages_after,
            tokens_approx_after,
        } => {
            assert_eq!(hermes_session_id.as_deref(), Some("20260527_202251_df54bf"));
            assert_eq!(messages_before, Some(50));
            assert_eq!(messages_after, Some(9));
            assert_eq!(tokens_approx_after, Some(54_700));
        }
        other => panic!("unexpected: {other:?}"),
    }
}

#[test]
fn parses_done_line_unicode_arrow() {
    let line = "agent.conversation_compression: context compression done: session=abc messages=50\u{2192}9 tokens=~1234";
    match parse(line).expect("recognized") {
        HermesStderrSignal::CompactionDone {
            messages_before,
            messages_after,
            tokens_approx_after,
            ..
        } => {
            assert_eq!(messages_before, Some(50));
            assert_eq!(messages_after, Some(9));
            assert_eq!(tokens_approx_after, Some(1234));
        }
        other => panic!("unexpected: {other:?}"),
    }
}

#[test]
fn parses_status_line() {
    let line = "\u{1f5dc}\u{fe0f} Compacting context \u{2014} summarizing earlier conversation so I can continue...";
    assert_eq!(parse(line), Some(HermesStderrSignal::CompactionStatus));
}

#[test]
fn parses_auxiliary_line() {
    let line = "2026-05-27 21:27:04 [INFO] agent.auxiliary_client: Auxiliary compression: using openai-codex (gpt-5.3-codex-spark) at https://chatgpt.com/backend-api/codex/";
    match parse(line).expect("recognized") {
        HermesStderrSignal::AuxiliaryCompression {
            provider,
            model,
            base_url,
        } => {
            assert_eq!(provider.as_deref(), Some("openai-codex"));
            assert_eq!(model.as_deref(), Some("gpt-5.3-codex-spark"));
            assert_eq!(
                base_url.as_deref(),
                Some("https://chatgpt.com/backend-api/codex/")
            );
        }
        other => panic!("unexpected: {other:?}"),
    }
}

#[test]
fn parses_repeated_warning() {
    let line = "\u{26a0}\u{fe0f}  Session compressed 3 times \u{2014} accuracy may degrade. Consider /new to start fresh.";
    assert_eq!(
        parse(line),
        Some(HermesStderrSignal::RepeatedCompressionWarning { count: Some(3) })
    );
}

#[test]
fn unrecognized_line_returns_none() {
    assert_eq!(parse("nothing interesting here"), None);
    assert_eq!(parse(""), None);
}

#[test]
fn tolerates_missing_fields() {
    let line = "agent.conversation_compression: context compression started: messages=12";
    match parse(line).expect("recognized") {
        HermesStderrSignal::CompactionStarted {
            hermes_session_id,
            messages_before,
            model,
            focus,
            ..
        } => {
            assert!(hermes_session_id.is_none());
            assert_eq!(messages_before, Some(12));
            assert!(model.is_none());
            assert!(focus.is_none());
        }
        other => panic!("unexpected: {other:?}"),
    }
}

#[test]
fn focus_and_unusual_fields() {
    let line = "context compression started: session=a=b focus=tests messages= tokens=abc focus=docs";
    assert_eq!(
        parse(line),
        Some(HermesStderrSignal::CompactionStarted {
            hermes_session_id: Some("a=b".to_string()),
            messages_before: None,
            tokens_approx_before: None,
            model: None,
            focus: Some("docs".to_string()),
        })
    );
}

#[test]
fn numbers_that_do_not_fit_are_missing() {
    let line = "context compression done: messages=18446744073709551616->18446744073709551615";
    assert_eq!(
        parse(line),
        Some(HermesStderrSignal::CompactionDone {
            hermes_session_id: None,
            messages_before: None,
            messages_after: Some(u64::MAX),
            tokens_approx_after: None,
        })
    );
}

#[test]
fn done_without_an_arrow_has_only_a_number_before() {
    assert_eq!(
        parse("context compression done: messages=7"),
        Some(HermesStderrSignal::CompactionDone {
            hermes_session_id: None,
            messages_before: Some(7),
            messages_after: None,
            tokens_approx_after: None,
        })
    );
}

#[test]
fn auxiliary_line_in_parts() {
    assert_eq!(
        parse("Auxiliary compression: using acme"),
        Some(HermesStderrSignal::AuxiliaryCompression {
            provider: Some("acme".to_string()),
            model: None,
            base_url: None,
        })
    );
    assert_eq!(
        parse("Auxiliary compression: acme (model at http://x"),
        Some(HermesStderrSignal::AuxiliaryCompression {
            provider: Some("acme".to_string()),
            model: None,
            base_url: None,
        })
    );
    assert_eq!(
        parse("Auxiliary compression: using acme at   http://x  "),
        Some(HermesStderrSignal::AuxiliaryCompression {
            provider: Some("acme".to_string()),
            model: None,
            base_url: Some("http://x".to_string()),
        })
    );
    assert_eq!(
        parse("Auxiliary compression: using acme (m) at   "),
        Some(HermesStderrSignal::AuxiliaryCompression {
            provider: Some("acme".to_string()),
            model: Some("m".to_string()),
            base_url: None,
        })
    );
}

#[test]
fn repeated_warning_without_a_number() {
    assert_eq!(
        parse("Session compressed often"),
        Some(HermesStderrSignal::RepeatedCompressionWarning { count: None })
    );
    assert_eq!(
        parse("Session compressed"),
        Some(HermesStderrSignal::RepeatedCompressionWarning { count: None })
    );
}

#[test]
fn the_first_mark_decides() {
    let line = "Compacting context: context compression done: messages=3->1";
    assert!(matches!(
        parse(line),
        Some(HermesStderrSignal::CompactionDone { .. })
    ));
}

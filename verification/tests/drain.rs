use animus_provider_gemini::events::{
    AgentNotification, DrainState, MetadataEntry, SessionEvent,
};
use serde_json::Value;

fn text(s: &str) -> String {
    s.to_string()
}

fn json(s: &str) -> Value {
    Value::String(s.to_string())
}

fn fresh() -> DrainState {
    DrainState::new(None, String::new())
}

#[test]
fn deltas_append_and_final_text_replaces() {
    let mut state = fresh();
    state.apply(SessionEvent::TextDelta { text: text("Hel") });
    state.apply(SessionEvent::TextDelta { text: text("lo") });
    assert_eq!(state.output, "Hello");
    state.apply(SessionEvent::FinalText { text: text("Bye") });
    assert_eq!(state.output, "Bye");
    state.apply(SessionEvent::TextDelta { text: text("!") });
    assert_eq!(state.output, "Bye!");
}

#[test]
fn output_notifications_mark_final_text() {
    let mut state = DrainState::new(Some(text("s1")), text("acp"));
    match state.apply(SessionEvent::TextDelta { text: text("a") }) {
        Some(AgentNotification::Output { session_id, text, is_final }) => {
            assert_eq!(session_id, "s1");
            assert_eq!(text, "a");
            assert!(!is_final);
        }
        _ => panic!("a text delta is forwarded as output"),
    }
    match state.apply(SessionEvent::FinalText { text: text("ab") }) {
        Some(AgentNotification::Output { text, is_final, .. }) => {
            assert_eq!(text, "ab");
            assert!(is_final);
        }
        _ => panic!("final text is forwarded as output"),
    }
}

#[test]
fn first_announced_session_id_wins() {
    let mut state = fresh();
    match state.apply(SessionEvent::Thinking { text: text("hmm") }) {
        Some(AgentNotification::Thinking { session_id, .. }) => assert_eq!(session_id, ""),
        _ => panic!("thinking is forwarded"),
    }
    state.apply(SessionEvent::Started { backend: text(""), session_id: None });
    assert_eq!(state.session_id, None);
    state.apply(SessionEvent::Started { backend: text("native"), session_id: Some(text("first")) });
    state.apply(SessionEvent::Started { backend: text(""), session_id: Some(text("second")) });
    assert_eq!(state.session_id, Some(text("first")));
    assert_eq!(state.backend_label, "native");
    match state.apply(SessionEvent::Error { message: text("oops"), recoverable: true }) {
        Some(AgentNotification::Error { session_id, message, recoverable }) => {
            assert_eq!(session_id, "first");
            assert_eq!(message, "oops");
            assert!(recoverable);
        }
        _ => panic!("errors are forwarded"),
    }
}

#[test]
fn known_session_id_is_kept() {
    let mut state = DrainState::new(Some(text("opened")), text("acp"));
    state.apply(SessionEvent::Started { backend: text(""), session_id: Some(text("other")) });
    assert_eq!(state.session_id, Some(text("opened")));
    assert_eq!(state.backend_label, "acp");
}

#[test]
fn unrecoverable_error_fails_the_run() {
    let mut state = fresh();
    state.apply(SessionEvent::Error { message: text("soft"), recoverable: true });
    assert_eq!(state.exit_code, 0);
    state.apply(SessionEvent::Error { message: text("hard"), recoverable: false });
    assert_eq!(state.exit_code, 1);
    state.apply(SessionEvent::Finished { exit_code: None });
    assert_eq!(state.exit_code, 1);
    assert_eq!(state.errors, vec![text("soft"), text("hard")]);
}

#[test]
fn finished_exit_code_wins() {
    let mut state = fresh();
    state.apply(SessionEvent::Error { message: text("hard"), recoverable: false });
    state.apply(SessionEvent::Finished { exit_code: Some(7) });
    assert_eq!(state.exit_code, 7);
    assert!(state.finished);
}

#[test]
fn nothing_counts_after_finished() {
    let mut state = fresh();
    state.apply(SessionEvent::TextDelta { text: text("done") });
    state.apply(SessionEvent::Finished { exit_code: Some(0) });
    assert!(state.apply(SessionEvent::TextDelta { text: text(" more") }).is_none());
    assert!(state.apply(SessionEvent::Error { message: text("late"), recoverable: false }).is_none());
    assert!(state.apply(SessionEvent::Finished { exit_code: Some(3) }).is_none());
    assert_eq!(state.output, "done");
    assert_eq!(state.exit_code, 0);
    assert!(state.errors.is_empty());
}

#[test]
fn records_are_kept_in_order() {
    let mut state = DrainState::new(Some(text("s")), text("b"));
    let note = state.apply(SessionEvent::ToolCall {
        tool_name: text("read"),
        arguments: json("a1"),
        server: Some(text("fs")),
    });
    match note {
        Some(AgentNotification::ToolCall { session_id, name, arguments, server }) => {
            assert_eq!(session_id, "s");
            assert_eq!(name, "read");
            assert_eq!(arguments, json("a1"));
            assert_eq!(server, Some(text("fs")));
        }
        _ => panic!("tool calls are forwarded"),
    }
    state.apply(SessionEvent::ToolCall { tool_name: text("write"), arguments: json("a2"), server: None });
    let note = state.apply(SessionEvent::ToolResult { tool_name: text("read"), output: json("o1"), success: true });
    match note {
        Some(AgentNotification::ToolResult { name, output, success, .. }) => {
            assert_eq!(name, "read");
            assert_eq!(output, json("o1"));
            assert!(success);
        }
        _ => panic!("tool results are forwarded"),
    }
    assert!(state.apply(SessionEvent::Artifact { artifact_id: text("art"), metadata: json("m1") }).is_none());
    assert!(state.apply(SessionEvent::Metadata { metadata: json("m2") }).is_none());
    state.apply(SessionEvent::Thinking { text: text("t1") });
    state.apply(SessionEvent::Thinking { text: text("t2") });

    assert_eq!(state.tool_calls.len(), 2);
    assert_eq!(state.tool_calls[0].tool_name, "read");
    assert_eq!(state.tool_calls[0].arguments, json("a1"));
    assert_eq!(state.tool_calls[0].server, Some(text("fs")));
    assert_eq!(state.tool_calls[1].tool_name, "write");
    assert_eq!(state.tool_calls[1].arguments, json("a2"));
    assert_eq!(state.tool_calls[1].server, None);
    assert_eq!(state.tool_results.len(), 1);
    assert_eq!(state.tool_results[0].output, json("o1"));
    assert_eq!(state.metadata.len(), 2);
    match &state.metadata[0] {
        MetadataEntry::Artifact { artifact_id, metadata } => {
            assert_eq!(artifact_id, "art");
            assert_eq!(metadata, &json("m1"));
        }
        _ => panic!("an artifact is recorded as one"),
    }
    match &state.metadata[1] {
        MetadataEntry::Reported { metadata } => assert_eq!(metadata, &json("m2")),
        _ => panic!("metadata is recorded as reported"),
    }
    assert_eq!(state.thinking, vec![text("t1"), text("t2")]);
}

#[test]
fn response_names_backend_and_session() {
    let state = DrainState::new(None, String::new());
    let response = state.into_response(text("gemini-2.5-pro"), 42);
    assert_eq!(response.backend, "gemini:gemini-2.5-pro");
    assert_eq!(response.session_id, "");
    assert_eq!(response.duration_ms, 42);
    assert_eq!(response.exit_code, 0);

    let mut state = DrainState::new(Some(text("abc")), text("acp"));
    state.apply(SessionEvent::FinalText { text: text("out") });
    state.apply(SessionEvent::Thinking { text: text("why") });
    let response = state.into_response(text("gemini-2.5-flash"), 7);
    assert_eq!(response.backend, "gemini-native:gemini-2.5-flash");
    assert_eq!(response.session_id, "abc");
    assert_eq!(response.output, "out");
    assert_eq!(response.thinking, vec![text("why")]);
}

use std::path::PathBuf;

use animus_provider_gemini::config::GeminiConfig;
use animus_provider_gemini::events::{DrainState, SessionEvent};
use animus_provider_gemini::health::HealthStatus;
use animus_provider_gemini::manifest::provider_manifest;
use animus_provider_gemini::request::AgentRunRequest;

fn run_request(model: Option<&str>, prompt: &str) -> AgentRunRequest {
    AgentRunRequest {
        session_id: None,
        prompt: prompt.to_string(),
        model: model.map(|s| s.to_string()),
        cwd: PathBuf::from("/tmp"),
        project_root: None,
        permission_mode: None,
        timeout_secs: None,
        env: Vec::new(),
        mcp_servers: None,
        tools: None,
        response_schema: None,
        runtime_contract: None,
    }
}

fn resume_request(session_id: &str, prompt: &str) -> AgentRunRequest {
    let mut request = run_request(Some("gemini-3.1-pro-preview"), prompt);
    request.session_id = Some(session_id.to_string());
    request
}

/// Feeds the events a fake session backend would send (the canned ones, then
/// `Finished` with code 0) and returns the response.
fn drain_fake_session(canned: Vec<SessionEvent>, model_label: String) -> animus_provider_gemini::events::AgentRunResponse {
    let mut state = DrainState::new(Some("fake-session-id".to_string()), "gemini-fake".to_string());
    for event in canned {
        state.apply(event);
    }
    state.apply(SessionEvent::Finished { exit_code: Some(0) });
    state.into_response(model_label, 0)
}

#[test]
fn run_agent_via_fake_session() {
    let config = GeminiConfig::for_testing("/usr/bin/true".to_string());
    let started = config.build_session_request(run_request(Some("gemini-3.1-pro-preview"), "ping"));
    assert_eq!(started.tool, "gemini");
    assert_eq!(started.model, "gemini-3.1-pro-preview");
    assert_eq!(started.prompt, "ping");

    let response = drain_fake_session(
        vec![SessionEvent::FinalText { text: "hello".to_string() }],
        started.model.clone(),
    );
    assert!(
        response.output.contains("hello"),
        "expected output to contain 'hello', got {:?}",
        response.output
    );
    assert_eq!(response.exit_code, 0);
    assert_eq!(response.session_id, "fake-session-id");
    assert!(response.backend.contains("gemini"));
}

#[test]
fn resume_agent_via_fake_session() {
    let config = GeminiConfig::for_testing("/usr/bin/true".to_string());
    let resumed = config.build_resume_request(resume_request("prior-session-xyz", "keep going"));
    let (session_id, request) = match resumed {
        Ok(pair) => pair,
        Err(_) => panic!("resume_agent should succeed"),
    };
    assert_eq!(session_id, "prior-session-xyz");
    assert_eq!(request.prompt, "keep going");

    let response = drain_fake_session(
        vec![SessionEvent::FinalText { text: "resumed".to_string() }],
        request.model.clone(),
    );
    assert!(response.output.contains("resumed"));
}

#[test]
fn health_unhealthy_when_gemini_missing() {
    let config = GeminiConfig::for_testing("/definitely/does/not/exist/animus-gemini-bin".to_string());
    let health = config.health(None);
    assert_eq!(health.status, HealthStatus::Unhealthy);
    assert!(health.last_error.is_some());
    let last_error = health.last_error.unwrap();
    assert!(
        last_error.contains("not found"),
        "expected error to mention 'not found', got {last_error:?}"
    );
}

#[test]
fn health_healthy_when_gemini_present() {
    let config = GeminiConfig::for_testing("gemini".to_string());
    let health = config.health(Some(PathBuf::from("/tmp/bin/gemini")));
    assert_eq!(health.status, HealthStatus::Healthy);
    assert!(health.last_error.is_none());
}

#[test]
fn manifest_capabilities_sanity() {
    let manifest = provider_manifest();

    assert_eq!(manifest.name, "animus-provider-gemini");
    assert_eq!(manifest.tool, "gemini");
    assert!(!manifest.version.is_empty());
    assert!(!manifest.description.is_empty());
    assert!(manifest
        .supported_models
        .iter()
        .any(|m| m == "gemini-3.1-pro-preview"));

    let caps = manifest.capabilities;
    assert!(caps.streaming);
    assert!(caps.resume);
    assert!(caps.cancellation);
    assert!(caps.write_capable);
    assert!(caps.mcp);
}

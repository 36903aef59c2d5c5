use std::path::PathBuf;

use animus_provider_gemini::config::{blank, GeminiConfig, HarnessSettings};
use animus_provider_gemini::manifest::{manifest_requested, plugin_descriptor, provider_manifest};
use animus_provider_gemini::request::{AgentRunRequest, BackendError};
use serde_json::Value;

fn s(x: &str) -> String {
    x.to_string()
}

fn request() -> AgentRunRequest {
    AgentRunRequest {
        session_id: None,
        prompt: s("do it"),
        model: None,
        cwd: PathBuf::from("/work"),
        project_root: Some(PathBuf::from("/repo")),
        permission_mode: Some(s("ask")),
        timeout_secs: Some(30),
        env: vec![(s("A"), s("1")), (s("B"), s("2"))],
        mcp_servers: None,
        tools: None,
        response_schema: None,
        runtime_contract: None,
    }
}

#[test]
fn config_defaults_fill_absent_settings() {
    let config = GeminiConfig::from_settings(None, None);
    assert_eq!(config.gemini_bin, "gemini");
    assert_eq!(config.default_model, "gemini-3.1-pro-preview");
    let config = GeminiConfig::from_settings(Some(s("/opt/gemini")), Some(s("gemini-2.5-pro")));
    assert_eq!(config.gemini_bin, "/opt/gemini");
    assert_eq!(config.default_model, "gemini-2.5-pro");
    let config = GeminiConfig::for_testing(s("x"));
    assert_eq!(config.gemini_bin, "x");
    assert_eq!(config.default_model, "gemini-3.1-pro-preview");
}

#[test]
fn harness_ignores_blank_settings() {
    let settings = HarnessSettings::from_settings(None, None);
    assert_eq!(settings.bin, "gemini");
    assert_eq!(settings.default_model, "gemini-2.5-flash");
    let settings = HarnessSettings::from_settings(Some(s("  \t")), Some(s("\u{3000}\u{a0}")));
    assert_eq!(settings.bin, "gemini");
    assert_eq!(settings.default_model, "gemini-2.5-flash");
    let settings = HarnessSettings::from_settings(Some(s(" /bin/gm ")), Some(s("gemini-1.5-pro")));
    assert_eq!(settings.bin, " /bin/gm ");
    assert_eq!(settings.default_model, "gemini-1.5-pro");
}

#[test]
fn blank_follows_unicode_white_space() {
    assert!(blank(&s("")));
    assert!(blank(&s(" \n\r\t\u{b}\u{c}\u{85}\u{2028}\u{205f}")));
    assert!(!blank(&s(" a ")));
    assert!(!blank(&s("\u{200b}")));
    assert!(!blank(&s("_")));
}

#[test]
fn session_request_uses_default_model_and_passes_fields() {
    let config = GeminiConfig::for_testing(s("gemini"));
    let session = config.build_session_request(request());
    assert_eq!(session.tool, "gemini");
    assert_eq!(session.model, "gemini-3.1-pro-preview");
    assert_eq!(session.prompt, "do it");
    assert_eq!(session.cwd, PathBuf::from("/work"));
    assert_eq!(session.project_root, Some(PathBuf::from("/repo")));
    assert_eq!(session.mcp_endpoint, None);
    assert_eq!(session.permission_mode, Some(s("ask")));
    assert_eq!(session.timeout_secs, Some(30));
    assert_eq!(session.env_vars, vec![(s("A"), s("1")), (s("B"), s("2"))]);
    assert!(session.extras.is_empty());
}

#[test]
fn extras_hold_present_fields_under_their_names() {
    let config = GeminiConfig::for_testing(s("gemini"));
    let mut r = request();
    r.model = Some(s("gemini-2.5-pro"));
    r.tools = Some(Value::Bool(true));
    r.runtime_contract = Some(Value::String(s("contract")));
    r.response_schema = Some(Value::Null);
    let session = config.build_session_request(r);
    assert_eq!(session.model, "gemini-2.5-pro");
    assert_eq!(
        session.extras,
        vec![
            (s("runtime_contract"), Value::String(s("contract"))),
            (s("tools"), Value::Bool(true)),
            (s("response_schema"), Value::Null),
        ]
    );
}

#[test]
fn resume_without_session_id_is_refused() {
    let config = GeminiConfig::for_testing(s("gemini"));
    match config.build_resume_request(request()) {
        Err(BackendError::RunFailed(message)) => assert_eq!(message, "resume requires a session_id"),
        _ => panic!("a resume without a session id fails"),
    }
}

#[test]
fn manifest_flag_after_program_name() {
    assert!(manifest_requested(&vec![s("plugin"), s("--manifest")]));
    assert!(manifest_requested(&vec![s("plugin"), s("x"), s("-m")]));
    assert!(!manifest_requested(&vec![s("--manifest")]));
    assert!(!manifest_requested(&vec![s("plugin"), s("--manifests"), s("m")]));
    assert!(!manifest_requested(&vec![]));
}

#[test]
fn plugin_descriptor_lists_requests_and_settings() {
    let d = plugin_descriptor();
    assert_eq!(d.name, "animus-provider-gemini");
    assert_eq!(d.plugin_kind, "provider");
    assert_eq!(d.version, provider_manifest().version);
    assert_eq!(d.capabilities, vec![s("agent/run"), s("agent/resume"), s("agent/cancel"), s("health/check")]);
    let names: Vec<&str> = d.env_required.iter().map(|e| e.name.as_str()).collect();
    assert_eq!(names, vec!["GEMINI_BIN", "GEMINI_DEFAULT_MODEL", "GEMINI_API_KEY", "GOOGLE_API_KEY", "ANIMUS_BIN"]);
    let sensitive: Vec<bool> = d.env_required.iter().map(|e| e.sensitive).collect();
    assert_eq!(sensitive, vec![false, false, true, true, false]);
    assert!(d.env_required.iter().all(|e| !e.required));
}

#[test]
fn default_models_are_advertised() {
    let models = provider_manifest().supported_models;
    assert!(models.contains(&GeminiConfig::from_settings(None, None).default_model));
    assert!(models.contains(&HarnessSettings::from_settings(None, None).default_model));
    assert_eq!(models.len(), 5);
}

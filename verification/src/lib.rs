//! The logic of the Animus provider plugin for Google Gemini: how the
//! provider is configured, how a run request becomes a Gemini session request,
//! how the session's events become notifications and a response, what the
//! provider reports about its health, and how it describes itself.

pub mod config;
pub mod events;
pub mod health;
pub mod laws;
pub mod manifest;
pub mod request;
pub mod values;

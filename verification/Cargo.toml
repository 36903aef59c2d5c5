[package]
name = "animus-provider-gemini"
version = "0.3.0"
edition = "2021"
publish = false

[dependencies]
anyhow = "=1.0.104"
async-trait = "=0.1.92"
serde_json = "=1.0.154"
tokio = { version = "=1.54.1", features = ["macros", "rt-multi-thread", "sync"] }
tracing-subscriber = { version = "=0.3.23", features = ["env-filter"] }

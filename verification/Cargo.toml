[package]
name = "codex_session"
version = "0.1.0"
edition = "2021"
publish = false

[dependencies]
anyhow = "=1.0.104"
axum = { version = "=0.8.9", default-features = false, features = ["http1", "query", "tokio", "ws"] }
futures = "=0.3.34"
ratatui = { version = "=0.29.0", default-features = false }
schemars = "=0.8.22"
serde = { version = "=1.0.229", features = ["derive"] }
serde_json = "=1.0.154"
tokio = { version = "=1.54.1", features = ["macros", "net", "rt-multi-thread", "sync"] }
tracing = "=0.1.44"
ts-rs = { version = "=12.0.1", features = ["serde-json-impl"] }
uuid = { version = "=1.29.0", features = ["v4"] }

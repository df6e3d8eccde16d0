[package]
name = "zoraxy_plugin"
version = "0.1.0"
edition = "2021"
publish = false

[dependencies]
serde_json = "1"
mime_guess = "2"
serde = { version = "1", features = ["derive"] }
axum = "*"
tokio = { version = "1", features = ["full"] }
tower = { version = "*", features = ["util"] }
anyhow = "1"
tracing = "0.1"
tracing-subscriber = { version = "0.3", features = ["env-filter"] }
include_dir = "0.7"

[package]
name = "status_message"
version = "0.1.0"
edition = "2021"
publish = false

[dependencies]
anyhow = "1"
near-units = "0.2"
serde_json = "1"
tokio = { version = "1", features = ["full"] }
workspaces = { version = "0.6", default-features = false }

[package]
name = "claude_bridge"
version = "0.1.0"
edition = "2021"
publish = false

[dependencies]
serde_json = "1"
dirs = "*"
serde = { version = "1", features = ["derive"] }
tokio = { version = "1", features = ["process", "io-util"] }

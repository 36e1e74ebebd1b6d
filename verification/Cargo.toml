[package]
name = "rs_terminal"
version = "0.1.0"
edition = "2021"
publish = false

[dependencies]
anyhow = "1"
axum = "0.8"
config = { version = "*", default-features = false, features = ["toml", "yaml", "json"] }
futures-util = "0.3"
log = "0.4"
log4rs = "1"
serde = { version = "1", features = ["derive"] }
serde_json = "1"
tokio = { version = "1", features = ["full"] }
tokio-pty-process = "0.4"
tokio-tungstenite = "*"
tower-http = { version = "0.6", features = ["cors"] }
uuid = { version = "1", features = ["v4"] }
wtransport = "0.6"

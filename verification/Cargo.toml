[package]
name = "ai-voice-server"
version = "0.1.0"
edition = "2021"
publish = false

[dependencies]
anyhow = "1"
axum = { version = "0.8", features = ["ws"] }
dirs = "*"
dotenvy = "0.15"
env_logger = "*"
futures-util = "0.3"
gtk4 = "*"
gtk4-layer-shell = "*"
ksni = "0.2"
log = "0.4"
open = "*"
reqwest = { version = "0.12", default-features = false, features = ["json", "stream", "rustls-tls"] }
serde = { version = "1", features = ["derive"] }
serde_json = "1"
tokio = { version = "1", features = ["full"] }
tokio-tungstenite = "*"
url = "2"
whisper-rs = "*"

[package]
name = "switchboard-sfu"
version = "0.1.0"
edition = "2021"
publish = false

[dependencies]
anyhow = "=1.0.104"
async-mutex = "=1.4.1"
futures = "=0.3.34"
futures-channel = "=0.3.34"
futures-util = "=0.3.34"
log = "=0.4.34"
pretty_env_logger = "=0.5.0"
serde = { version = "=1.0.229", features = ["derive"] }
serde_json = "=1.0.154"
tokio = { version = "=1.54.1", features = ["full"] }
tokio-tungstenite = "=0.30.0"
uuid = { version = "=1.29.0", features = ["v4"] }
webrtc = "=0.6.0"

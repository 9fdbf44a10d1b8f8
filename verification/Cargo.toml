[package]
name = "wechat_client"
version = "0.1.0"
edition = "2021"
publish = false

[dependencies]
anyhow = "1"
chrono = "0.4"
futures = "0.3"
log = "0.4"
pin-project = "1"
reqwest = { version = "0.11", default-features = false }
serde_json = "1"
tokio = { version = "1", features = ["net"] }
tokio-tungstenite = "0.17"
tungstenite = "0.17"

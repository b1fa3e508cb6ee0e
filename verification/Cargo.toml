[package]
name = "taco_chat"
version = "0.1.0"
edition = "2021"
publish = false

[dependencies]
axum = { version = "0.7", features = ["ws", "multipart"] }
chrono = { version = "0.4", features = ["serde"] }
futures = "0.3"
indexmap = "2"
reqwest = { version = "0.11", default-features = false, features = ["json", "multipart", "stream"] }
serde = { version = "1", features = ["derive"] }
serde_json = "1"
sha256 = "1"
tokio = { version = "1", features = ["full"] }
tokio-tungstenite = "0.21"
tokio-util = { version = "0.7", features = ["codec"] }
tower-http = { version = "0.5", features = ["fs"] }
tracing-subscriber = "0.3"
uuid = { version = "1", features = ["v4"] }

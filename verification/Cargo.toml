[package]
name = "voxverse"
version = "0.6.0"
edition = "2021"
publish = false

[dependencies]
chrono = "0.4"
keyring = "3"
serde = { version = "1", features = ["derive"] }
serde_json = "1"
uuid = { version = "1", features = ["v4"] }
rusqlite = { version = "0.31", features = ["bundled"] }
reqwest = { version = "0.12", default-features = false, features = ["json", "stream", "multipart", "rustls-tls"] }
tokio = { version = "1", features = ["rt", "time", "macros"] }
futures = "0.3"
log = "0.4"
msedge-tts = "*"

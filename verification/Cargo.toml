[package]
name = "response_stream"
version = "0.1.0"
edition = "2021"
publish = false

[dependencies]
anyhow = "1"
chrono = "0.4"
futures = "0.3"
log = "0.4"
serde_json = "1"
tokio = { version = "1", features = ["io-util", "macros", "process", "rt", "time"] }
uuid = { version = "1", features = ["v4"] }

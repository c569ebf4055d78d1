[package]
name = "barter_data"
version = "0.1.0"
edition = "2021"
publish = false

[dependencies]
barter-integration = "0.7"
base64 = "0.21"
chrono = "0.4"
futures = "0.3"
http = "0.2"
ring = "0.17"
serde = { version = "1", features = ["derive"] }
serde_json = "1"
tokio = { version = "1", features = ["macros", "rt", "sync", "time"] }
tokio-stream = "0.1"
tracing = "0.1"
url = "2"

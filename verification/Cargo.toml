[package]
name = "agenthub"
version = "0.1.0"
edition = "2021"
publish = false

[dependencies]
anyhow = "*"
base64 = "*"
chrono = "*"
clap = { version = "*", features = ["derive"] }
futures = "*"
serde = { version = "*", features = ["derive"] }
serde_json = "*"
sha2 = "*"
tokio = { version = "*", features = ["rt-multi-thread", "macros", "time", "sync", "signal"] }
tokio-util = { version = "*", features = ["rt"] }
toml = "*"
tracing = "*"
url = "*"
uuid = { version = "*", features = ["v4"] }

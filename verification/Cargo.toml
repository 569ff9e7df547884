[package]
name = "neolink"
version = "0.1.0"
edition = "2021"
publish = false

[dependencies]
anyhow = "1"
axum = "0.7"
base64 = "0.22"
bytes = "1"
chrono = "0.4"
clap = { version = "4", features = ["derive"] }
futures = "0.3"
hyper = { version = "1", features = ["server", "http1"] }
hyper-util = { version = "0.1", features = ["server", "server-graceful", "service", "tokio"] }
log = "0.4"
once_cell = "1"
quick-xml = { version = "0.37", features = ["serialize"] }
regex = "1"
rumqttc = "0.24"
serde = { version = "1", features = ["derive"] }
sha1 = "0.10"
socket2 = { version = "0.5", features = ["all"] }
tokio = { version = "1", features = ["full"] }
tokio-stream = { version = "0.1", features = ["sync"] }
tokio-util = { version = "0.7", features = ["full"] }
toml = "0.8"
uuid = { version = "1", features = ["v4", "v5"] }
validator = { version = "0.18", features = ["derive"] }

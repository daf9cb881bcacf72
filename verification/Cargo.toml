[package]
name = "archify"
version = "0.1.0"
edition = "2021"
publish = false

[dependencies]
base64 = "=0.21.7"
chrono = "0.4"
clap = { version = "=4.6.7", features = ["derive"] }
env_logger = "=0.10.2"
log = "=0.4.34"
reqwest = { version = "=0.11.27", features = ["blocking"] }
rspotify = { version = "0.12", features = ["cli", "env-file"] }
rusqlite = { version = "=0.29.0", features = ["bundled"] }
serde = { version = "=1.0.229", features = ["derive"] }
serde_json = "=1.0.154"
sha2 = "=0.10.9"
single-instance = "=0.3.3"
tokio = { version = "=1.54.1", features = ["rt", "rt-multi-thread"] }
url = "=2.5.8"

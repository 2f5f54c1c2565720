[package]
name = "astral-core"
version = "0.1.0"
edition = "2021"
publish = false

[dependencies]
sha2 = "=0.10.9"
hex = "=0.4.3"
rand = "=0.8.8"
uuid = { version = "=1.29.0", features = ["v4"] }
service-manager = "=0.11.0"
serde = { version = "=1.0.229", features = ["derive"] }
serde_json = "=1.0.154"
anyhow = "=1.0.104"
thiserror = "=1.0.69"
axum = "=0.7.9"
tokio = { version = "=1.54.1", features = ["full"] }
clap = { version = "=4.6.7", features = ["derive", "env"] }
directories = "=5.0.1"
tracing = "=0.1.44"
tracing-subscriber = { version = "=0.3.23", features = ["env-filter"] }
tonic = "=0.12.3"
tower = "=0.4.13"
http = "=1.5.0"
http-body-util = "=0.1.5"
bytes = "=1.12.1"
futures-util = "=0.3.34"
tokio-stream = { version = "=0.1.19", features = ["net"] }
windows-service = "=0.8.1"

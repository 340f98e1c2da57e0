[package]
name = "athena_voice"
version = "0.1.0"
edition = "2021"
publish = false

[dependencies]
uuid = { version = "1", features = ["v4"] }
serde = { version = "1", features = ["derive"] }
serde_json = "1"
strsim = "0.11"
ini = "1"
base64 = "0.22"
hound = "3"
tempfile = "3"
clap = { version = "4", features = ["derive"] }
rumqttc = "0.24"
tokio = { version = "1", features = ["full"] }
tokio-util = { version = "0.7", features = ["codec"] }
futures = "0.3"
bytes = "1"
anyhow = "1"
thiserror = "1"
tracing = "0.1"
tracing-subscriber = { version = "0.3", features = ["env-filter"] }
once_cell = "1"
dashmap = "6"
chrono = "0.4"
async-trait = "0.1"

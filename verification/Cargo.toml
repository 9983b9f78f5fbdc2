[package]
name = "space_status"
version = "0.1.0"
edition = "2021"
publish = false

[dependencies]
spaceapi = "=0.9.0"
badge-maker = "=0.3.1"
axum = "=0.6.20"
clap = { version = "=4.6.7", features = ["derive", "env"] }
kagiyama = "=0.3.0"
lazy_static = "=1.5.1"
mqtt-channel-client = { version = "=0.6.0", features = ["metrics"] }
serde_json = "=1.0.154"
tokio = { version = "=1.54.1", features = ["full"] }
tracing = "=0.1.44"
tracing-subscriber = "=0.3.23"
url = "=2.5.8"

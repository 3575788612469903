[package]
name = "hyprnote"
version = "0.1.0"
edition = "2021"
publish = false

[dependencies]
url = "=2.5.8"
uuid = { version = "=1.29.0", features = ["v4"] }
ringbuf = "=0.4.8"
tokio = { version = "=1.54.1", features = ["rt-multi-thread", "macros", "sync", "process", "fs", "net", "time"] }
clap = { version = "=4.6.7", features = ["derive", "env"] }
serde = { version = "=1.0.229", features = ["derive"] }
serde_json = "=1.0.154"
axum = "=0.8.9"
tower-http = { version = "=0.6.11", features = ["cors"] }
textwrap = "=0.16.4"
futures-util = "=0.3.34"
tracing = "=0.1.44"
thiserror = "=2.0.21"
indicatif = "0.18"
dasp = "0.11"
cpal = "0.16"
rodio = { version = "0.21", default-features = false, features = ["playback", "wav"] }
reqwest = { version = "0.12", default-features = false }

[package]
name = "everywhere"
version = "0.1.0"
edition = "2021"
publish = false

[dependencies]
anyhow = "1"
async-tungstenite = { version = "*", features = ["tokio-runtime"] }
audiopus = "0.2"
base64 = "0.22"
bytes = "1"
chrono = { version = "0.4", features = ["serde"] }
cpal = "0.15"
crossbeam-channel = "0.5"
crossterm = { version = "0.27", features = ["event-stream"] }
futures = "0.3"
futures-util = { version = "0.3", features = ["sink"] }
hound = "3"
instant = "0.1"
num_cpus = "1"
scopeguard = "1"
serde = { version = "1", features = ["derive"] }
spin = "0.9"
tokio = { version = "1", features = ["sync", "rt", "rt-multi-thread", "macros", "time", "signal"] }
whisper-rs = "*"

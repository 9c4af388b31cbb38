[package]
name = "oc_bridge"
version = "0.1.0"
edition = "2021"
publish = false

[dependencies]
bytes = "1"
chrono = "0.4"
clap = { version = "4", features = ["derive"] }
serde = { version = "1", features = ["derive"] }
serde_json = "1"
toml = "0.8"
tokio = { version = "1", features = ["full"] }
crossterm = "0.28"
ratatui = "0.29"
serialport = { version = "4", default-features = false }
socket2 = "0.5"
parking_lot = "0.12"
futures-util = "0.3"
tokio-tungstenite = "0.24"
tracing = "0.1"
tracing-subscriber = { version = "0.3", features = ["env-filter"] }
anyhow = "1"
arboard = "3"
libc = "0.2"
fs2 = "0.4"

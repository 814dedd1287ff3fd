[package]
name = "peer_pressure"
version = "0.1.0"
edition = "2021"
publish = false

[dependencies]
uuid = { version = "1", features = ["v4"] }
serde = { version = "1", features = ["derive"] }
serde_json = "1"
tokio = { version = "1", features = ["full"] }
tokio-util = { version = "0.7", features = ["codec"] }
futures = "0.3"
crossterm = { version = "0.28", features = ["event-stream"] }
ratatui = "0.29"
clap = { version = "4", features = ["derive"] }
anyhow = "1"
async-trait = "0.1"
thiserror = "2"

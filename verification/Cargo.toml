[package]
name = "edge_telemetry"
version = "0.1.0"
edition = "2021"
publish = false

[dependencies]
dashmap = "*"
rand = "*"
tokio = { version = "*", features = ["full"] }
crossterm = "*"
ratatui = "*"

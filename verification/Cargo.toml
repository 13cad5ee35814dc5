[package]
name = "resource_monitor"
version = "0.1.0"
edition = "2021"
publish = false

[dependencies]
tokio = { version = "*", features = ["full"] }
axum = "*"
clap = { version = "*", features = ["derive"] }
crossterm = "*"
futures = "*"
serde = { version = "*", features = ["derive"] }
serde_json = "*"
sysinfo = "*"
tarpc = { version = "*", features = ["serde-transport", "serde-transport-json", "tcp", "tokio1"] }
tokio-serde = { version = "*", features = ["json"] }
tokio-stream = { version = "*", features = ["sync"] }
tokio-util = "*"

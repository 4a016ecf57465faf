[package]
name = "propeller"
version = "0.1.0"
edition = "2021"
publish = false

[dependencies]
clap = { version = "4", features = ["derive"] }
serde = { version = "1", features = ["derive"] }
serde_json = "1"
tokio = { version = "1", features = ["full"] }
midir = "0.10"
tracing = "0.1"
tracing-appender = "0.2"
tracing-subscriber = "0.3"
crossterm = "0.28"
ratatui = "0.29"

[package]
name = "loglens"
version = "0.1.0"
edition = "2021"
publish = false

[dependencies]
anyhow = "=1.0.104"
aws-config = "=1.12.0"
aws-sdk-cloudwatchlogs = "=1.156.0"
clap = { version = "=4.6.7", features = ["derive"] }
crossterm = { version = "=0.29.0", features = ["event-stream"] }
futures = "=0.3.34"
ratatui = "=0.30.2"
tokio = { version = "=1.53.2", features = ["macros", "rt-multi-thread", "sync", "time"] }

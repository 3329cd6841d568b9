[package]
name = "campaign"
version = "0.1.0"
edition = "2021"
publish = false

[dependencies]
serde = { version = "=1.0.229", features = ["derive"] }
serde_yaml = "=0.9.34"
clap = { version = "=4.6.7", features = ["derive"] }
ratatui = { version = "=0.30.2", features = ["unstable-rendered-line-info"] }
crossterm = "=0.29.0"

[package]
name = "herdr"
version = "0.1.0"
edition = "2021"
publish = false

[dependencies]
crossterm = "*"
ratatui = "*"
serde_json = "*"
tokio = { version = "*", features = ["sync"] }

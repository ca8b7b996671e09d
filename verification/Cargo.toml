[package]
name = "process-display"
version = "0.1.0"
edition = "2021"
publish = false

[dependencies]
anyhow = "1"
crossterm = "0.27"
itertools = "0.13"
ratatui = { version = "0.27", features = ["serde"] }
serde = { version = "1", features = ["derive"] }
sysinfo = "0.33"

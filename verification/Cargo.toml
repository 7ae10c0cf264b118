[package]
name = "terminal_notes"
version = "0.1.0"
edition = "2021"
publish = false

[dependencies]
chrono = "0.4"
crossterm = "0.27"
csv = "1"
dirs = "5"
ratatui = "0.23"
serde = { version = "1", features = ["derive"] }
serde_json = "1"

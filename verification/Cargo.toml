[package]
name = "earthworm"
version = "0.1.0"
edition = "2021"
publish = false

[dependencies]
uuid = { version = "1", features = ["v4"] }
crossterm = "*"
ratatui = "*"
serde = { version = "1", features = ["derive"] }
serde_json = "1"
strum = { version = "*", features = ["derive"] }
color-eyre = "*"
tokio = { version = "1", features = ["rt-multi-thread", "macros", "sync", "time"] }

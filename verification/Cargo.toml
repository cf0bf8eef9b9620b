[package]
name = "postsmith"
version = "0.1.0"
edition = "2021"
publish = false

[dependencies]
ratatui = "*"
reqwest = { version = "*", default-features = false }
tokio = { version = "*", features = ["rt-multi-thread"] }
serde = { version = "*", features = ["derive"] }
serde_json = "*"
dirs = "*"
chrono = "*"

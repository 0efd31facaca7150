[package]
name = "clank"
version = "0.1.0"
edition = "2021"
publish = false

[dependencies]
dirs = "6"
rand = "0.9"
ratatui = "0.29"
serde = { version = "1", features = ["derive"] }
serde_json = "1"

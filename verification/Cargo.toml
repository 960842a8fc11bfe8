[package]
name = "grok_overlay"
version = "0.1.0"
edition = "2021"
publish = false

[dependencies]
global-hotkey = "0.7"
serde = { version = "1", features = ["derive"] }
serde_json = "1"

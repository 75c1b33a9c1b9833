[package]
name = "audio_message"
version = "0.1.0"
edition = "2021"
publish = false

[dependencies]
js_int = { version = "0.2", features = ["serde"] }
ruma-common = "*"
serde = { version = "1", features = ["derive"] }
serde_json = { version = "1", features = ["preserve_order"] }

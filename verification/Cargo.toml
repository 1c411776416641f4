[package]
name = "discord"
version = "0.1.0"
edition = "2021"
publish = false

[dependencies]
base64 = "0.13"
flate2 = "1"
serde = { version = "1", features = ["derive"] }
serde_json = "1"
hyper = "0.10"
multipart = { version = "0.18", default-features = false, features = ["client", "mock"] }
websocket = { version = "0.20", default-features = false, features = ["sync"] }

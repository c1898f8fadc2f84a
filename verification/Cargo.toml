[package]
name = "golem_tts"
version = "0.1.0"
edition = "2021"
publish = false

[dependencies]
base64 = "*"
chrono = "*"
hex = "*"
hmac = "*"
reqwest = { version = "*", default-features = false }
serde = { version = "*", features = ["derive"] }
serde_json = "*"
sha2 = "*"
uuid = { version = "*", features = ["v4"] }

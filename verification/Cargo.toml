[package]
name = "qarax"
version = "0.1.0"
edition = "2021"
publish = false

[dependencies]
uuid = { version = "=1.29.0", features = ["v4"] }
serde = { version = "=1.0.229", features = ["derive"] }
serde_json = "=1.0.154"
hmac = "0.12"
sha2 = "0.10"
hex = "0.4"

[package]
name = "okx_client"
version = "0.1.0"
edition = "2021"
publish = false

[dependencies]
base64 = "0.21"
chrono = "0.4"
eyre = "0.6"
hmac = "0.12"
reqwest = { version = "0.11", features = ["json"] }
serde = { version = "1", features = ["derive"] }
serde_json = "1"
sha2 = "0.10"

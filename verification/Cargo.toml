[package]
name = "safepkt_backend"
version = "0.1.0"
edition = "2021"
publish = false

[dependencies]
bollard = "*"
tokio = { version = "*", features = ["rt", "time"] }
futures = "*"
serde = { version = "*", features = ["derive"] }
serde_json = "*"
base64 = "*"
sha2 = "*"
hex = "*"

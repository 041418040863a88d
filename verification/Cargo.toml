[package]
name = "email_sender"
version = "0.1.0"
edition = "2021"
publish = false

[dependencies]
base64 = "0.13"
actix-web = { version = "4", default-features = false }
actix-rt = "2"
reqwest = { version = "0.11", default-features = false }
tokio = { version = "1", features = ["fs", "io-util"] }
serde = { version = "1", features = ["derive"] }
serde_derive = "1"
serde_json = "1"
env_logger = "0.10"
log = "0.4"

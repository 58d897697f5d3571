[package]
name = "secure_store"
version = "0.1.0"
edition = "2021"
publish = false

[dependencies]
keyring = "2"
serde = { version = "1", features = ["derive"] }

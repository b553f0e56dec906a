[package]
name = "api_client"
version = "0.1.0"
edition = "2021"
publish = false

[dependencies]
reqwest = "0.12"
serde = { version = "1", features = ["derive"] }
serde_json = "1"
thiserror = "2"

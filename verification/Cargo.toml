[package]
name = "riot_api"
version = "0.1.0"
edition = "2021"
publish = false

[dependencies]
log = "0.4"
reqwest = "0.12"
serde = { version = "1", features = ["derive"] }
serde_json = "1"
simple_logger = "5"

[package]
name = "docomo_sharecycle"
version = "0.1.0"
edition = "2021"
publish = false

[dependencies]
regex = "1"
reqwest = "0.12"
tokio = { version = "1", features = ["rt-multi-thread", "macros", "sync"] }
futures = "0.3"
serde = { version = "1", features = ["derive"] }
toml = "0.8"
log = "0.4"
env_logger = "0.11"

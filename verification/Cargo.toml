[package]
name = "bunnieverse"
version = "0.1.0"
edition = "2021"
publish = false

[dependencies]
bytes = "1"
relm4 = "0.4"
misskey = "0.2"
tokio = { version = "1", features = ["full"] }
reqwest = "0.11"
surf = "2"
futures = "0.3"
anyhow = "1"
env_logger = "0.9"
log = "0.4"
const_env = "0.1"

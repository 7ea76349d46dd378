[package]
name = "notify-tg"
version = "0.1.0"
edition = "2021"
publish = false

[dependencies]
argh = "=0.1.19"
dirs = "=7.0.0"
env_logger = "=0.11.11"
log = "=0.4.34"
reqwest = "=0.11.27"
serde = { version = "=1.0.229", features = ["derive"] }
teloxide-core = "=0.2.2"
tokio = { version = "=1.54.1", features = ["rt", "net", "time"] }
tokio-util = { version = "=0.6.10", features = ["codec"] }
toml = "=1.1.8"

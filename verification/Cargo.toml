[package]
name = "socks5_forwarder"
version = "0.1.0"
edition = "2021"
publish = false

[dependencies]
anyhow = "1"
clap = "2"
env_logger = "0.10"
log = "0.4"
tokio = { version = "1", features = ["rt-multi-thread", "net", "io-util", "macros"] }
tokio-stream = { version = "0.1", features = ["net"] }

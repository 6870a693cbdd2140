[package]
name = "fsds_rs"
version = "0.1.0"
edition = "2021"
publish = false

[dependencies]
anyhow = "1"
msgpack-rpc = "*"
tokio = { version = "1", features = ["net"] }
tokio-util = { version = "*", features = ["compat"] }

[package]
name = "proxy_engine"
version = "0.1.0"
edition = "2021"
publish = false

[dependencies]
url = "2"
tokio = { version = "1", features = ["net", "io-util", "rt-multi-thread", "macros"] }

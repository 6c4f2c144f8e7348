[package]
name = "sni_relay"
version = "0.1.0"
edition = "2021"
publish = false

[dependencies]
tokio = { version = "1", features = ["rt", "net", "io-util", "macros"] }
tokio-socks = "0.5"

[package]
name = "async_http_proxy"
version = "0.1.0"
edition = "2021"
publish = false

[dependencies]
base64 = "*"
httparse = "*"
tokio = { version = "1", features = ["io-util"] }
async-std = "1"

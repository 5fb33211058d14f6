[package]
name = "revproxy"
version = "0.1.0"
edition = "2021"
publish = false

[dependencies]
anyhow = "1"
hyper = { version = "0.14", features = ["client", "server", "http1", "http2", "tcp"] }
hyper-rustls = "0.22"
tokio = { version = "1", features = ["full"] }

[package]
name = "rama"
version = "0.1.0"
edition = "2021"
publish = false

[dependencies]
http = "1"
http-body-util = "0.1"
hyper = { version = "1", features = ["server", "http1"] }
tokio-rustls = "0.26"

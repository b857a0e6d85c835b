[package]
name = "revproxy"
version = "0.1.0"
edition = "2021"
publish = false

[dependencies]
axum = "*"
http-body-util = "*"
hyper = "*"
reqwest = { version = "*", default-features = false }
tokio = { version = "*", features = ["macros", "rt-multi-thread", "net"] }

[package]
name = "session_pool"
version = "0.1.0"
edition = "2021"
publish = false

[dependencies]
fantoccini = { version = "*", default-features = false }
hyper-util = { version = "*", features = ["client-legacy"] }
tokio = { version = "*", features = ["rt"] }

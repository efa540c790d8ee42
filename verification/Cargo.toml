[package]
name = "logstream"
version = "0.1.0"
edition = "2021"
publish = false

[dependencies]
web3 = { version = "*", default-features = false, features = ["http"] }
tokio = { version = "*", features = ["rt", "time", "macros"] }
futures = "*"

[package]
name = "state_bridge"
version = "0.1.0"
edition = "2021"
publish = false

[dependencies]
futures = "0.3"
failure = "0.1"
tokio = { version = "1", features = ["rt-multi-thread"] }

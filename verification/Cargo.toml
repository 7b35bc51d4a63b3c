[package]
name = "wombo"
version = "0.1.0"
edition = "2021"
publish = false

[dependencies]
futures = "0.1"
parking_lot = "0.12"
thread-id = "4"
tokio-core = "0.1"
uuid = { version = "1", features = ["v4"] }

[package]
name = "market_streams"
version = "0.1.0"
edition = "2021"
publish = false

[dependencies]
tokio = { version = "*", features = ["sync", "rt"] }
futures = "*"
chrono = "*"

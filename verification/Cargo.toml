[package]
name = "record_store"
version = "0.1.0"
edition = "2021"
publish = false

[dependencies]
redis = { version = "0.23", features = ["tokio-comp"] }
rocket = "0.5"
tokio = { version = "1", features = ["fs"] }
tracing = "0.1"

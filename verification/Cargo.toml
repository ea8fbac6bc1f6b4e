[package]
name = "btc_toolkit"
version = "0.1.0"
edition = "2021"
publish = false

[dependencies]
asic-rs = "*"
serde = { version = "1", features = ["derive"] }
serde_json = "1"
tokio = { version = "1", features = ["rt-multi-thread", "sync", "macros", "time"] }
futures = "0.3"
thiserror = "*"

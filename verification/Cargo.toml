[package]
name = "node_logger"
version = "0.1.0"
edition = "2021"
publish = false

[dependencies]
colored = "2"
crossterm = "0.27"
tokio = { version = "1", features = ["sync"] }
tracing-subscriber = { version = "0.3", features = ["env-filter"] }

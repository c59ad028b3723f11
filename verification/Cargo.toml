[package]
name = "sui-node"
version = "0.1.0"
edition = "2021"
publish = false

[dependencies]
anyhow = "1"
futures = "0.3"
jsonrpsee = { version = "0.15.1", features = ["http-server", "ws-server"] }
parking_lot = "0.12"
prometheus = "0.13"
tokio = { version = "1", features = ["full"] }
tracing = "0.1"

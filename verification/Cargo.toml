[package]
name = "traverse"
version = "0.1.0"
edition = "2021"
publish = false

[dependencies]
alloy-network = "0.8"
alloy-primitives = "0.8"
alloy-provider = { version = "0.8", default-features = false }
alloy-rpc-types = "0.8"
alloy-transport = "0.8"
eyre = "0.6"
jsonrpsee = { version = "0.24", features = ["server", "macros"] }
metrics = "0.24"
metrics-derive = "0.1"
serde = { version = "1", features = ["derive"] }
thiserror = "2"
tokio = { version = "1", features = ["sync", "macros", "rt"] }
tracing = "0.1"

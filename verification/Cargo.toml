[package]
name = "preflight"
version = "0.1.0"
edition = "2021"
publish = false

[dependencies]
alloy-primitives = "=0.7.7"
alloy-provider = "=0.2.1"
alloy-rpc-types = "=0.2.1"
anyhow = "1"
reqwest = { version = "=0.12.28", default-features = false, features = ["json"] }
serde = { version = "1", features = ["derive"] }
tracing = "0.1"

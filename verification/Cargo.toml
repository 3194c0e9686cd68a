[package]
name = "hypersync"
version = "0.1.0"
edition = "2021"
publish = false

[dependencies]
alloy-dyn-abi = "*"
alloy-json-abi = "*"
alloy-primitives = "*"
serde = { version = "*", features = ["derive"] }
serde_json = "*"

[package]
name = "revm_inspectors"
version = "0.1.0"
edition = "2021"
publish = false

[dependencies]
alloy-primitives = "=1.7.3"
alloy-rpc-types-trace = "=2.5.0"
alloy-sol-types = "=1.7.3"
revm = { version = "=43.0.3", default-features = false, features = ["std"] }

[package]
name = "fixerio"
version = "0.1.0"
edition = "2021"
publish = false

[dependencies]
error-chain = "0.12"
futures = "0.1"
hyper = "0.11"
serde = "1.0"
serde_derive = "1.0"
serde_json = "1.0"
tokio-core = "0.1"
